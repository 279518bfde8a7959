use ora::compose::compose;
use ora::option::DEFAULT_INTERVAL;
use ora::width::{columns_or_default, rows_for, rows_for_width, DEFAULT_COLUMNS};
use ora::{Options, Ora, OraError, Spinner, StartAction, Tick};

fn options(text: &str, frames: Vec<&'static str>, interval: u32) -> Options {
    Options {
        text: Some(text.to_string()),
        interval,
        frames,
        log_without_tty: false,
        enable: true,
        hide_cursor: true,
        prefix_text: None,
        suffix_text: None,
    }
}

fn tty_spinner(text: &str, frames: Vec<&'static str>, interval: u32) -> Ora {
    Ora::with_terminal(options(text, frames, interval), true, 80)
}

fn draw_line(t: Tick) -> String {
    match t {
        Tick::Draw { line, .. } => line,
        Tick::Exit => panic!("expected a frame"),
    }
}

#[test]
fn empty_text_takes_one_row() {
    let o = tty_spinner("", vec!["-"], 80);
    assert_eq!(o.line_count(), 1);
    assert_eq!(rows_for("", 80), 1);
}

#[test]
fn wide_text_wraps_to_three_rows() {
    let text = "a".repeat(200);
    let o = tty_spinner(&text, vec!["-"], 80);
    assert_eq!(o.line_count(), 3);
    assert_eq!(rows_for(&text, 80), 3);
}

#[test]
fn rows_are_at_least_one() {
    for columns in [1u16, 2, 3, 80, 200, u16::MAX] {
        assert!(rows_for("", columns) >= 1);
        assert!(rows_for("x", columns) >= 1);
        assert!(rows_for("\n", columns) >= 1);
    }
}

#[test]
fn rows_grow_with_width() {
    let mut last = 0;
    for n in 0..400 {
        let rows = rows_for(&"b".repeat(n), 80);
        assert!(rows >= last);
        last = rows;
    }
    assert_eq!(rows_for(&"b".repeat(78), 80), 1);
    assert_eq!(rows_for(&"b".repeat(79), 80), 2);
}

#[test]
fn rows_formula_values() {
    assert_eq!(rows_for_width(0, 80), 1);
    assert_eq!(rows_for_width(78, 80), 1);
    assert_eq!(rows_for_width(79, 80), 2);
    assert_eq!(rows_for_width(200, 80), 3);
    assert_eq!(rows_for_width(0, 1), 2);
    assert_eq!(rows_for_width(usize::MAX, 1), usize::MAX);
    assert_eq!(rows_for_width(usize::MAX, 2), usize::MAX / 2 + 2);
}

#[test]
fn escape_sequences_are_not_measured() {
    let plain = "c".repeat(78);
    let coloured = format!("\u{1b}[31m{}\u{1b}[0m", plain);
    assert_eq!(rows_for(&coloured, 80), 1);
}

#[test]
fn wide_glyphs_count_double() {
    // two characters of width 2 and the glyph overhead: 6 columns
    assert_eq!(rows_for("日本", 6), 1);
    assert_eq!(rows_for("日本", 5), 2);
}

#[test]
fn physical_lines_add_up() {
    assert_eq!(rows_for("ab\ncd", 80), 2);
    assert_eq!(rows_for("ab\n", 80), 2);
    let long = format!("{}\n{}", "a".repeat(200), "b");
    assert_eq!(rows_for(&long, 80), 4);
}

#[test]
fn columns_fall_back_to_default() {
    assert_eq!(columns_or_default(None), DEFAULT_COLUMNS);
    assert_eq!(columns_or_default(Some(0)), 80);
    assert_eq!(columns_or_default(Some(120)), 120);
}

#[test]
fn compose_bare_glyph() {
    assert_eq!(compose("", "-", "", ""), "-");
}

#[test]
fn compose_all_segments() {
    assert_eq!(compose("pre", "-", "body", "post"), "pre - bodypost ");
    assert_eq!(compose("pre", "-", "", ""), "pre -");
    assert_eq!(compose("", "-", "body", ""), "- body");
    assert_eq!(compose("", "-", "", "post"), "-post ");
}

#[test]
fn empty_frame_set_is_refused() {
    let mut o = tty_spinner("x", vec!["a", "b", "c"], 10);
    assert_eq!(o.run(), StartAction::Launch { epoch: 1 });
    o.tick(1);
    assert_eq!(o.frame_index(), 1);
    assert_eq!(o.update_frames(vec![]), Err(OraError::InvalidFrameSet));
    assert_eq!(o.frame_index(), 1);
    assert_eq!(o.frame_count(), 3);
    assert!(o.tick(1) != Tick::Exit);
    assert_eq!(o.frame_index(), 2);
}

#[test]
fn new_frames_start_from_the_first() {
    let mut o = tty_spinner("", vec!["a", "b", "c"], 10);
    o.run();
    o.tick(1);
    assert_eq!(o.update_frames(vec!["x", "y"]), Ok(()));
    assert_eq!(o.frame_index(), 0);
    assert_eq!(draw_line(o.tick(1)), "x");
    assert_eq!(draw_line(o.tick(1)), "y");
    assert_eq!(draw_line(o.tick(1)), "x");
}

#[test]
fn frames_cycle_in_order() {
    let mut o = tty_spinner("", vec!["-", "+", "-"], 10);
    assert_eq!(o.run(), StartAction::Launch { epoch: 1 });
    let mut seen = [false; 3];
    let mut glyphs = Vec::new();
    for _ in 0..7 {
        seen[o.frame_index()] = true;
        glyphs.push(draw_line(o.tick(1)));
    }
    assert!(seen.iter().all(|s| *s));
    assert_eq!(glyphs, vec!["-", "+", "-", "-", "+", "-", "-"]);
}

#[test]
fn first_tick_hides_cursor_then_clears() {
    let mut o = tty_spinner("hello", vec!["-", "+"], 25);
    o.run();
    assert_eq!(
        o.tick(1),
        Tick::Draw { hide_cursor: true, clear_rows: 0, line: "- hello".to_string(), sleep_ms: 25 }
    );
    o.update_interval(40);
    assert_eq!(
        o.tick(1),
        Tick::Draw { hide_cursor: false, clear_rows: 1, line: "+ hello".to_string(), sleep_ms: 40 }
    );
}

#[test]
fn start_then_stop_leaves_nothing() {
    let mut o = tty_spinner("x", vec!["-"], 10);
    o.run();
    let s = o.stop();
    assert_eq!(s.clear_rows, 0);
    assert!(!s.show_cursor);
    assert!(!o.is_spinning);
    assert_eq!(o.tick(1), Tick::Exit);
}

#[test]
fn stop_clears_drawn_frame_once() {
    let mut o = tty_spinner(&"a".repeat(200), vec!["-"], 10);
    o.run();
    o.tick(1);
    let s = o.stop();
    assert_eq!(s.clear_rows, 3);
    assert!(s.show_cursor);
    let again = o.stop();
    assert_eq!(again.clear_rows, 0);
    assert!(!again.show_cursor);
    assert_eq!(o.tick(1), Tick::Exit);
}

#[test]
fn start_twice_is_a_no_op() {
    let mut o = tty_spinner("x", vec!["-"], 10);
    assert_eq!(o.run(), StartAction::Launch { epoch: 1 });
    assert_eq!(o.run(), StartAction::Idle);
    assert!(o.is_spinning);
}

#[test]
fn restart_retires_the_old_loop() {
    let mut o = tty_spinner("x", vec!["-"], 10);
    assert_eq!(o.run(), StartAction::Launch { epoch: 1 });
    o.stop();
    assert_eq!(o.run(), StartAction::Launch { epoch: 2 });
    assert_eq!(o.tick(1), Tick::Exit);
    assert!(o.tick(2) != Tick::Exit);
}

#[test]
fn not_animated_without_terminal() {
    let mut opts = options("busy", vec!["-"], 10);
    opts.log_without_tty = true;
    opts.prefix_text = Some("[a]".to_string());
    let mut o = Ora::with_terminal(opts, false, 80);
    assert_eq!(o.run(), StartAction::Log { line: "[a] - busy".to_string() });
    let s = o.stop();
    assert_eq!(s.clear_rows, 0);

    let mut quiet = Ora::with_terminal(options("busy", vec!["-"], 10), false, 80);
    assert_eq!(quiet.run(), StartAction::Idle);

    let mut disabled_opts = options("busy", vec!["-"], 10);
    disabled_opts.enable = false;
    let mut disabled = Ora::with_terminal(disabled_opts, true, 80);
    assert_eq!(disabled.run(), StartAction::Idle);
}

#[test]
fn update_text_recomputes_rows() {
    let mut o = tty_spinner("", vec!["-"], 10);
    o.update_text_for_columns("a".repeat(200), 80);
    assert_eq!(o.text(), "a".repeat(200));
    assert_eq!(o.line_count(), 3);
    o.update_text_for_columns("a".repeat(200), 40);
    assert_eq!(o.line_count(), 6);
    o.update_text("short".to_string());
    assert_eq!(o.text(), "short");
    assert!(o.line_count() >= 1);
}

#[test]
fn constructor_reads_options() {
    let mut opts = options("t", vec!["-", "+"], 55);
    opts.suffix_text = Some("s".to_string());
    let mut o = Ora::new(opts);
    assert_eq!(o.text(), "t");
    assert_eq!(o.interval(), 55);
    assert_eq!(o.frame_index(), 0);
    assert_eq!(o.frame_count(), 2);
    assert!(!o.is_spinning);
    assert!(o.line_count() >= 1);
    o.update_interval(7);
    assert_eq!(o.interval(), 7);
}

#[test]
fn default_options() {
    let d = Options::default();
    assert_eq!(d.interval, DEFAULT_INTERVAL);
    assert_eq!(d.frames.len(), 4);
    assert!(d.enable);
    assert!(d.hide_cursor);
    assert!(!d.log_without_tty);
    assert!(d.text.is_none());
    let preset = Spinner { interval: 100, frames: vec!["."] };
    assert_eq!(preset.clone().frames, vec!["."]);
}
