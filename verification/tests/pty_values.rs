use shell_terminal::pty::{
    is_shell_mode, launch_plan, reader_step, relaunch_plan, PtySize, ReaderSlot, ReaderStep,
    INITIAL_COLS, INITIAL_ROWS, READ_BUFFER_SIZE,
};
use shell_terminal::terminal::LoopEvent;

#[test]
fn the_initial_size_is_24_rows_of_80_columns() {
    assert_eq!(
        PtySize::initial(),
        PtySize { rows: 24, cols: 80, pixel_width: 0, pixel_height: 0 }
    );
    assert_eq!((INITIAL_ROWS, INITIAL_COLS), (24, 80));
}

#[test]
fn a_size_in_cells_leaves_the_pixels_open() {
    assert_eq!(
        PtySize::cells(40, 100),
        PtySize { rows: 40, cols: 100, pixel_width: 0, pixel_height: 0 }
    );
}

#[test]
fn a_launch_plan_names_the_program_its_arguments_and_the_terminal_type() {
    let plan = launch_plan("/bin/sh", &["-c", "echo hi"]);
    assert_eq!(plan.program, "/bin/sh");
    assert_eq!(plan.args, vec!["-c".to_string(), "echo hi".to_string()]);
    assert_eq!(plan.term, "xterm-256color");
    assert_eq!(plan.size, PtySize::initial());
    let bare = launch_plan("top", &[]);
    assert_eq!(bare.args, Vec::<String>::new());
}

#[test]
fn the_program_relaunches_itself_as_the_child() {
    let plan = relaunch_plan("/usr/local/bin/shell");
    assert_eq!(plan.program, "/usr/local/bin/shell");
    assert_eq!(plan.args, vec!["--shell-mode".to_string()]);
    assert_eq!(plan.term, "xterm-256color");
    let mut argv = vec![plan.program.clone()];
    argv.extend(plan.args.clone());
    assert!(is_shell_mode(&argv));
}

#[test]
fn the_child_role_is_asked_for_by_the_first_argument() {
    let args = |list: &[&str]| list.iter().map(|s| s.to_string()).collect::<Vec<String>>();
    assert!(is_shell_mode(&args(&["shell", "--shell-mode"])));
    assert!(is_shell_mode(&args(&["shell", "--shell-mode", "more"])));
    assert!(!is_shell_mode(&args(&["shell"])));
    assert!(!is_shell_mode(&args(&[])));
    assert!(!is_shell_mode(&args(&["--shell-mode"])));
    assert!(!is_shell_mode(&args(&["shell", "x", "--shell-mode"])));
    assert!(!is_shell_mode(&args(&["shell", "--shell-modes"])));
}

#[test]
fn the_reader_delivers_what_it_read() {
    assert_eq!(READ_BUFFER_SIZE, 4096);
    assert_eq!(reader_step(Some(1), READ_BUFFER_SIZE), ReaderStep::Deliver(1));
    assert_eq!(reader_step(Some(4096), READ_BUFFER_SIZE), ReaderStep::Deliver(4096));
}

#[test]
fn the_reader_stops_at_the_end_of_output_and_on_an_error() {
    assert_eq!(reader_step(Some(0), READ_BUFFER_SIZE), ReaderStep::Finish(LoopEvent::ChildClosed));
    assert_eq!(reader_step(None, READ_BUFFER_SIZE), ReaderStep::Finish(LoopEvent::Failed));
    assert_eq!(reader_step(Some(4097), READ_BUFFER_SIZE), ReaderStep::Finish(LoopEvent::Failed));
    assert_eq!(reader_step(Some(0), 0), ReaderStep::Finish(LoopEvent::ChildClosed));
}

#[test]
fn a_channel_has_one_reader_at_most() {
    let mut slot = ReaderSlot::new();
    assert!(slot.claim());
    assert!(!slot.claim());
    assert!(!slot.claim());
}
