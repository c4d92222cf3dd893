use vigilant::cmd::CmdOutput;
use vigilant::conf::GConf;
use vigilant::msg::{
    changed_rows, data_row, headers_message, initial_rows, title_message, welcome_message,
};
use vigilant::runner::RawCapture;

fn snapshot(stdout: &[u8]) -> CmdOutput {
    CmdOutput::new("watch ls", Ok(RawCapture { stdout: stdout.to_vec(), exit_ok: true })).unwrap()
}

#[test]
fn welcome_has_fixed_text() {
    let m = welcome_message();
    assert_eq!(m.message, "Welcome to the WebSocket server!");
}

#[test]
fn title_carries_the_command_line() {
    let m = title_message(&"watch ls".to_string());
    assert_eq!(m.command, "SetTitle");
    assert_eq!(m.center, "watch ls");
}

#[test]
fn headers_use_detected_tokens_when_present() {
    let m = headers_message(Some(vec!["PID".to_string(), "TTY".to_string()]));
    assert_eq!(m.command, "SetHeaders");
    assert_eq!(m.headers, vec!["PID".to_string(), "TTY".to_string()]);
}

#[test]
fn headers_fall_back_to_fixed_columns() {
    let m = headers_message(None);
    assert_eq!(
        m.headers,
        vec!["name".to_string(), "age".to_string(), "country".to_string()]
    );
}

#[test]
fn data_row_carries_index_and_text() {
    let m = data_row(7, &"hello".to_string());
    assert_eq!(m.command, "SetDataRow");
    assert_eq!(m.index, 7);
    assert_eq!(m.values, vec!["hello".to_string()]);
}

#[test]
fn initial_rows_drain_the_snapshot_in_order() {
    let mut co = snapshot(b"a\nb\nc");
    let rows = initial_rows(&mut co);
    assert_eq!(rows.len(), 3);
    for (k, row) in rows.iter().enumerate() {
        assert_eq!(row.index, k);
    }
    assert_eq!(rows[0].values, vec!["a".to_string()]);
    assert_eq!(rows[1].values, vec!["b".to_string()]);
    assert_eq!(rows[2].values, vec!["c".to_string()]);
    // The drain used up the cursor.
    assert_eq!(co.next(), None);
}

#[test]
fn changed_rows_carry_the_changed_indices() {
    let mut co = snapshot(b"a\nb\nc");
    let changed = co
        .update_lines(vec!["a".to_string(), "x".to_string(), "y".to_string()])
        .unwrap();
    assert_eq!(changed, vec![1, 2]);
    let rows = changed_rows(&co, &changed);
    assert_eq!(rows.len(), 2);
    assert_eq!(rows[0].index, 1);
    assert_eq!(rows[0].values, vec!["x".to_string()]);
    assert_eq!(rows[1].index, 2);
    assert_eq!(rows[1].values, vec!["y".to_string()]);
}

#[test]
fn gconf_round_trips_a_command_line() {
    let mut conf = GConf::new();
    assert_eq!(conf.get_cmdline(), "");
    conf.set_cmdline("watch  -n   1");
    assert_eq!(conf.get_cmdline(), "watch -n 1");
    conf.add_to_cmdline("ls");
    assert_eq!(conf.get_cmdline(), "watch -n 1 ls");
}

#[test]
fn gconf_single_token() {
    let mut conf = GConf::new();
    conf.set_cmdline("ls");
    assert_eq!(conf.get_cmdline(), "ls");
}
