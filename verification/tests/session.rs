use std::sync::Arc;

use sericom_core::file_output::{header_line, should_flush, FileForwarder, FileStep};
use sericom_core::input::{map_event, HostEvent, InputAction, Key, KeyKind, Modifiers, MouseKind};
use sericom_core::position::Position;
use sericom_core::rect::Rect;
use sericom_core::render::RenderOp;
use sericom_core::serial_actor::{
    on_command, on_read, on_write, PortRequest, SerialEvent, SerialMessage, BREAK_HOLD_MS,
    BROADCAST_CAPACITY, COMMAND_CAPACITY, READ_BUFFER_SIZE,
};
use sericom_core::session::{runs_exit_script, session_tasks, setup_steps, teardown_steps, Task, TerminalStep};
use sericom_core::stdout_task::{StdoutTask, RENDER_TICK_MS};
use sericom_core::style::{Colors, TermColor};
use sericom_core::ui_command::UICommand;

fn press(code: Key, modifiers: Modifiers) -> HostEvent {
    HostEvent::Key { code, modifiers, kind: KeyKind::Press }
}

fn data(bytes: &[u8]) -> SerialEvent {
    SerialEvent::Data(Arc::from(bytes))
}

#[test]
fn actor_writes_bytes() {
    let step = on_command(Some(SerialMessage::Write(vec![1, 2, 3])));
    assert!(matches!(step.port, PortRequest::Write(ref d) if d == &vec![1, 2, 3]));
    assert!(step.publish.is_none());
    assert!(!step.stop);
}

#[test]
fn actor_sends_break() {
    let step = on_command(Some(SerialMessage::SendBreak));
    assert!(matches!(step.port, PortRequest::Break(500)));
    assert_eq!(BREAK_HOLD_MS, 500);
    assert!(step.publish.is_none());
    assert!(!step.stop);
}

#[test]
fn actor_shuts_down() {
    let step = on_command(Some(SerialMessage::Shutdown));
    assert!(matches!(step.port, PortRequest::Nothing));
    assert!(matches!(step.publish, Some(SerialEvent::ConnectionClosed)));
    assert!(step.stop);
    let step = on_command(None);
    assert!(step.publish.is_none());
    assert!(step.stop);
}

#[test]
fn actor_publishes_a_write_failure_and_goes_on() {
    let step = on_write(Some(String::from("broken pipe")));
    assert!(matches!(step.publish, Some(SerialEvent::Error(ref m)) if m == "broken pipe"));
    assert!(!step.stop);
    let step = on_write(None);
    assert!(step.publish.is_none());
    assert!(!step.stop);
}

#[test]
fn actor_publishes_what_it_reads() {
    let buffer = [7u8, 8, 9, 0, 0];
    let step = on_read(Ok(3), &buffer);
    assert!(matches!(step.publish, Some(SerialEvent::Data(ref d)) if &d[..] == &[7u8, 8, 9][..]));
    assert!(!step.stop);
    let step = on_read(Ok(9), &buffer);
    assert!(matches!(step.publish, Some(SerialEvent::Data(ref d)) if d.len() == 5));
    let step = on_read(Ok(0), &buffer);
    assert!(matches!(step.publish, Some(SerialEvent::ConnectionClosed)));
    assert!(step.stop);
    let step = on_read(Err(String::from("gone")), &buffer);
    assert!(matches!(step.publish, Some(SerialEvent::Error(ref m)) if m == "gone"));
    assert!(step.stop);
}

#[test]
fn channel_sizes() {
    assert_eq!(COMMAND_CAPACITY, 100);
    assert_eq!(BROADCAST_CAPACITY, 128);
    assert_eq!(READ_BUFFER_SIZE, 4096);
    assert_eq!(RENDER_TICK_MS, 16);
}

#[test]
fn function_keys_scroll() {
    assert_eq!(map_event(press(Key::F(1), Modifiers::Other)), InputAction::Ui(UICommand::ScrollTop));
    assert_eq!(map_event(press(Key::F(2), Modifiers::Control)), InputAction::Ui(UICommand::ScrollBottom));
    assert_eq!(map_event(press(Key::F(3), Modifiers::Other)), InputAction::Nothing);
}

#[test]
fn alt_and_control_keys() {
    assert_eq!(map_event(press(Key::Char('b'), Modifiers::Alt)), InputAction::Break);
    assert_eq!(map_event(press(Key::Char('x'), Modifiers::Alt)), InputAction::Nothing);
    assert_eq!(map_event(press(Key::Enter, Modifiers::Alt)), InputAction::Nothing);
    assert_eq!(map_event(press(Key::Char('c'), Modifiers::Control)), InputAction::Send(vec![0x03]));
    assert_eq!(
        map_event(press(Key::Char('l'), Modifiers::Control)),
        InputAction::Ui(UICommand::ClearBuffer)
    );
    assert_eq!(map_event(press(Key::Char('q'), Modifiers::Control)), InputAction::Shutdown);
    assert_eq!(map_event(press(Key::Char('z'), Modifiers::Control)), InputAction::Nothing);
    assert_eq!(map_event(press(Key::Tab, Modifiers::Control)), InputAction::Nothing);
}

#[test]
fn plain_keys_send_bytes() {
    let table = vec![
        (Key::Char('a'), vec![b'a']),
        (Key::Char('é'), vec![0xC3, 0xA9]),
        (Key::Char('€'), vec![0xE2, 0x82, 0xAC]),
        (Key::Enter, vec![b'\r']),
        (Key::Backspace, vec![0x08]),
        (Key::Esc, vec![0x1B]),
        (Key::Tab, vec![0x09]),
        (Key::Delete, vec![0x7F]),
        (Key::Up, vec![0x1B, b'[', b'A']),
        (Key::Down, vec![0x1B, b'[', b'B']),
        (Key::Right, vec![0x1B, b'[', b'C']),
        (Key::Left, vec![0x1B, b'[', b'D']),
    ];
    for (key, bytes) in table {
        assert_eq!(map_event(press(key, Modifiers::Other)), InputAction::Send(bytes));
    }
    assert_eq!(map_event(press(Key::Other, Modifiers::Other)), InputAction::Nothing);
}

#[test]
fn only_presses_act() {
    for kind in [KeyKind::Repeat, KeyKind::Release] {
        for modifiers in [Modifiers::Alt, Modifiers::Control, Modifiers::Other] {
            for code in [Key::Char('q'), Key::Char('b'), Key::F(1), Key::Enter] {
                assert_eq!(map_event(HostEvent::Key { code, modifiers, kind }), InputAction::Nothing);
            }
        }
    }
}

#[test]
fn mouse_events() {
    let at = |kind| HostEvent::Mouse { kind, column: 7, row: 3 };
    assert_eq!(map_event(at(MouseKind::ScrollUp)), InputAction::Ui(UICommand::ScrollUp(1)));
    assert_eq!(map_event(at(MouseKind::ScrollDown)), InputAction::Ui(UICommand::ScrollDown(1)));
    assert_eq!(
        map_event(at(MouseKind::Down)),
        InputAction::Ui(UICommand::StartSelection(Position::new(7, 3)))
    );
    assert_eq!(
        map_event(at(MouseKind::Drag)),
        InputAction::Ui(UICommand::UpdateSelection(Position::new(7, 3)))
    );
    assert_eq!(map_event(at(MouseKind::Up)), InputAction::Ui(UICommand::CopySelection));
    assert_eq!(map_event(at(MouseKind::Other)), InputAction::Nothing);
}

#[test]
fn paste_is_sent_as_it_is() {
    assert_eq!(
        map_event(HostEvent::Paste(String::from("show version\r"))),
        InputAction::Send(b"show version\r".to_vec())
    );
    assert_eq!(map_event(HostEvent::Other), InputAction::Nothing);
}

#[test]
fn forwarder_collects_until_a_batch_is_full() {
    let mut f = FileForwarder::new();
    let step = f.on_event(&data(&[1u8; 100]), "t");
    assert_eq!(step, FileStep { sends: vec![], stop: false, skipped: None });
    assert_eq!(f.pending(), 100);
    let step = f.on_event(&data(&[2u8; 3995]), "t");
    assert_eq!(step.sends, Vec::<Vec<u8>>::new());
    assert_eq!(f.pending(), 4095);
    let step = f.on_event(&data(&[3u8; 1]), "t");
    assert_eq!(step.sends.len(), 1);
    assert_eq!(step.sends[0].len(), 4096);
    assert_eq!(step.sends[0][99], 1);
    assert_eq!(step.sends[0][100], 2);
    assert_eq!(step.sends[0][4095], 3);
    assert!(!step.stop);
    assert_eq!(f.pending(), 0);
    let step = f.on_event(&data(&[4u8; 5000]), "t");
    assert_eq!(step.sends.len(), 1);
    assert_eq!(step.sends[0].len(), 5000);
}

#[test]
fn forwarder_flushes_on_tick() {
    let mut f = FileForwarder::new();
    assert_eq!(f.on_tick(), FileStep { sends: vec![], stop: false, skipped: None });
    f.on_event(&data(b"abc"), "t");
    assert_eq!(f.on_tick(), FileStep { sends: vec![b"abc".to_vec()], stop: false, skipped: None });
    assert_eq!(f.pending(), 0);
}

#[test]
fn forwarder_records_errors_after_pending_data() {
    let mut f = FileForwarder::new();
    f.on_event(&data(b"abc"), "t");
    let step = f.on_event(&SerialEvent::Error(String::from("boom")), "2026-01-02 03:04:05 UTC");
    assert_eq!(
        step,
        FileStep {
            sends: vec![
                b"abc".to_vec(),
                b"\r\n[ERROR 2026-01-02 03:04:05 UTC] boom\r\n".to_vec()
            ],
            stop: false,
            skipped: None,
        }
    );
    let step = f.on_event(&SerialEvent::Error(String::from("again")), "T");
    assert_eq!(step.sends, vec![b"\r\n[ERROR T] again\r\n".to_vec()]);
}

#[test]
fn forwarder_records_the_close_and_stops() {
    let mut f = FileForwarder::new();
    f.on_event(&data(b"xy"), "t");
    let step = f.on_event(&SerialEvent::ConnectionClosed, "NOW");
    assert_eq!(
        step,
        FileStep {
            sends: vec![b"xy".to_vec(), b"\r\n[CLOSED NOW] Connection closed.\r\n".to_vec()],
            stop: true,
            skipped: None,
        }
    );
    assert_eq!(f.pending(), 0);
}

#[test]
fn forwarder_survives_lag_and_stops_on_closed_broadcast() {
    let mut f = FileForwarder::new();
    f.on_event(&data(b"xy"), "t");
    assert_eq!(f.on_lag(12), FileStep { sends: vec![], stop: false, skipped: Some(12) });
    assert_eq!(f.pending(), 2);
    assert_eq!(f.on_closed(), FileStep { sends: vec![], stop: true, skipped: None });
    assert_eq!(f.on_tick().sends, vec![b"xy".to_vec()]);
}

#[test]
fn writer_header_and_flush_policy() {
    assert_eq!(header_line("2026-01-02 UTC"), "Session started at: 2026-01-02 UTC\n");
    assert!(!should_flush(200, 4096));
    assert!(should_flush(201, 0));
    assert!(should_flush(0, 4097));
    assert!(!should_flush(0, 0));
}

fn task() -> StdoutTask {
    StdoutTask::new(
        Rect::new(Position::origin(), 3, 2),
        Colors::new(TermColor::Green, TermColor::Reset),
    )
}

#[test]
fn output_task_draws_data_when_due_and_arms_the_timer_when_not() {
    let mut t = task();
    let step = t.on_serial(Some(&data(b"a\n")), 100);
    assert!(!step.stop);
    assert!(!step.ops.is_empty());
    assert!(!t.timer_armed());
    let step = t.on_serial(Some(&data(b"b\n")), 110);
    assert!(step.ops.is_empty());
    assert!(t.timer_armed());
    assert_eq!(t.screen().len(), 3);
    let step = t.on_tick(120);
    assert!(step.ops.is_empty());
    assert!(t.timer_armed());
    let step = t.on_tick(133);
    assert!(!step.ops.is_empty());
    assert!(!t.timer_armed());
    let step = t.on_tick(500);
    assert!(step.ops.is_empty());
}

#[test]
fn output_task_shows_errors_at_once() {
    let mut t = task();
    t.on_serial(Some(&data(b"a")), 100);
    let step = t.on_serial(Some(&SerialEvent::Error(String::from("x"))), 101);
    assert!(!step.stop);
    assert!(!step.ops.is_empty());
    assert_eq!(t.screen().len(), 2);
    let shown: String = t
        .screen()
        .line(1)
        .unwrap()
        .get_span(0)
        .unwrap()
        .cells()
        .iter()
        .map(|c| c.character)
        .collect();
    assert_eq!(shown, "a[E");
}

#[test]
fn output_task_ends_with_the_connection() {
    let mut t = task();
    assert!(t.on_serial(Some(&SerialEvent::ConnectionClosed), 0).stop);
    assert!(t.on_serial(None, 0).stop);
    assert!(t.on_command(None, 0).stop);
}

#[test]
fn output_task_carries_out_commands_and_draws() {
    let mut t = task();
    t.on_serial(Some(&data(b"ab\ncd\nef\n")), 0);
    assert_eq!(t.screen().view_start(), 2);
    let step = t.on_command(Some(UICommand::ScrollUp(1)), 1);
    assert_eq!(t.screen().view_start(), 1);
    assert!(!step.ops.is_empty());
    assert_eq!(step.ops[0], RenderOp::HideCursor);
    assert_eq!(step.clipboard, None);
    t.on_command(Some(UICommand::StartSelection(Position::new(0, 0))), 2);
    t.on_command(Some(UICommand::UpdateSelection(Position::new(1, 0))), 3);
    let step = t.on_command(Some(UICommand::CopySelection), 4);
    assert_eq!(step.clipboard, Some(String::from("ab")));
    let step = t.on_command(Some(UICommand::CopySelection), 5);
    assert_eq!(step.clipboard, None);
    assert!(!step.stop);
}

#[test]
fn terminal_is_set_up_and_restored_in_order() {
    assert_eq!(
        setup_steps(),
        vec![
            TerminalStep::EnableRawMode,
            TerminalStep::EnterAlternateScreen,
            TerminalStep::SetTitle,
            TerminalStep::EnableBracketedPaste,
            TerminalStep::EnableMouseCapture,
            TerminalStep::MoveToOrigin,
        ]
    );
    assert_eq!(
        teardown_steps(),
        vec![
            TerminalStep::DisableMouseCapture,
            TerminalStep::DisableBracketedPaste,
            TerminalStep::LeaveAlternateScreen,
            TerminalStep::ShowCursor,
            TerminalStep::DisableRawMode,
            TerminalStep::Flush,
        ]
    );
}

#[test]
fn tasks_of_a_session() {
    assert_eq!(session_tasks(false, false), vec![Task::SerialActor, Task::Stdout, Task::Stdin]);
    assert_eq!(
        session_tasks(true, true),
        vec![Task::FileOutput, Task::DebugOutput, Task::SerialActor, Task::Stdout, Task::Stdin]
    );
    assert_eq!(
        session_tasks(false, true),
        vec![Task::DebugOutput, Task::SerialActor, Task::Stdout, Task::Stdin]
    );
    assert!(runs_exit_script(true, true));
    assert!(!runs_exit_script(true, false));
    assert!(!runs_exit_script(false, true));
}
