use epd_console::{BusOp, ConsoleUI, DriverState, Epd800x480, EpdBus, EpdConsole, BUF_SIZE};

fn test_driver() -> Epd800x480<(), (), (), (), (), ()> {
    let mut epd = Epd800x480::new(EpdBus::new((), (), (), (), ()), ());
    let _ = epd.init();
    epd
}

fn count_cmd(plan: &[BusOp], code: u8) -> usize {
    plan.iter().filter(|op| **op == BusOp::Cmd(code)).count()
}

#[test]
fn push_while_hidden_plans_no_panel_io() {
    let mut epd = test_driver();
    let mut ui = ConsoleUI::new();
    assert!(!ui.is_visible());
    for i in 0..40usize {
        let msg = format!("quiet {}", i);
        let plan = ui.push(&msg, &mut epd);
        assert!(plan.is_empty());
    }
    assert_eq!(ui.buffer.history.len(), 40);
}

#[test]
fn show_issues_exactly_one_full_frame() {
    let mut epd = test_driver();
    let mut ui = ConsoleUI::new();
    for i in 0..10usize {
        let msg = format!("accumulated {}", i);
        let _ = ui.push(&msg, &mut epd);
    }
    let plan = ui.show(&mut epd);
    assert!(ui.is_visible());
    // One data-to-plane-2 write, one refresh, and the settle delay at the
    // end; the frame sent is the freshly rendered buffer.
    assert_eq!(count_cmd(&plan, 0x13), 1);
    assert_eq!(count_cmd(&plan, 0x12), 1);
    assert_eq!(plan.last(), Some(&BusOp::DelayMs(50)));
    let frame: Vec<&BusOp> = plan.iter().filter(|op| matches!(op, BusOp::Data(d) if d.len() == BUF_SIZE)).collect();
    // Plane 1 is zero-filled, plane 2 carries the rendered frame.
    assert_eq!(frame.len(), 2);
    assert_eq!(frame[0], &BusOp::Data(vec![0u8; BUF_SIZE]));
    assert_eq!(frame[1], &BusOp::Data(ui.buffer.buffer().to_vec()));
}

#[test]
fn visible_push_with_whole_window_new_falls_back_to_full_frame() {
    let mut epd = test_driver();
    let mut ui = ConsoleUI::new();
    let _ = ui.show(&mut epd);
    // One line in history, one new line: the whole visible region is new,
    // so a plain full-frame display is planned, without a ghosting clear.
    let plan = ui.push("first", &mut epd);
    assert_eq!(count_cmd(&plan, 0x13), 1);
    assert_eq!(count_cmd(&plan, 0x91), 0);
    assert_eq!(count_cmd(&plan, 0x10), 1);
    assert_eq!(plan.last(), Some(&BusOp::DelayMs(50)));
    assert_eq!(plan.len(), 16);
}

#[test]
fn visible_push_plans_a_windowed_update() {
    let mut epd = test_driver();
    let mut ui = ConsoleUI::new();
    let _ = ui.push("first", &mut epd);
    let _ = ui.show(&mut epd);
    let plan = ui.push("second", &mut epd);
    // Two visible lines, one of them new: a windowed update of the last
    // line's band, rows 27..=44.
    assert_eq!(count_cmd(&plan, 0x91), 1);
    assert_eq!(count_cmd(&plan, 0x92), 1);
    let payload = plan
        .iter()
        .find_map(|op| match op {
            BusOp::Data(d) if d.len() == 9 => Some(d.clone()),
            _ => None,
        })
        .expect("partial window payload");
    assert_eq!(payload, vec![0, 0, 0x03, 0x1F, 0, 27, 0, 44, 0x01]);
    // The window's packed bytes are the rendered rows 27..45.
    let rows = plan
        .iter()
        .find_map(|op| match op {
            BusOp::Data(d) if d.len() == 1800 => Some(d.clone()),
            _ => None,
        })
        .expect("extracted rows");
    assert_eq!(rows.as_slice(), &ui.buffer.buffer()[2700..4500]);
    assert_eq!(plan.last(), Some(&BusOp::DelayMs(50)));
}

#[test]
fn eviction_push_clears_then_repaints() {
    let mut epd = test_driver();
    let mut ui = ConsoleUI::new();
    for i in 0..128usize {
        let msg = format!("fill {}", i);
        let _ = ui.push(&msg, &mut epd);
    }
    let _ = ui.show(&mut epd);
    let plan = ui.push("one more", &mut epd);
    // A ghosting clear (both planes zeroed) followed by a full frame.
    assert_eq!(count_cmd(&plan, 0x10), 2);
    assert_eq!(count_cmd(&plan, 0x13), 2);
    assert_eq!(count_cmd(&plan, 0x12), 2);
    assert_eq!(plan.last(), Some(&BusOp::DelayMs(50)));
    assert_eq!(ui.buffer.history.len(), 127);
}

#[test]
fn log_helpers_prefix_the_severity() {
    let mut epd = test_driver();
    let mut ui = ConsoleUI::new();
    let _ = ui.log_info("alpha", &mut epd);
    let _ = ui.log_warn("beta", &mut epd);
    let _ = ui.log_error("gamma", &mut epd);
    assert!(ui.buffer.history[0].as_str().ends_with("] INFO: alpha"));
    assert!(ui.buffer.history[1].as_str().ends_with("] WARN: beta"));
    assert!(ui.buffer.history[2].as_str().ends_with("] ERROR: gamma"));
}

#[test]
fn hide_plans_nothing_and_silences_pushes() {
    let mut epd = test_driver();
    let mut ui = ConsoleUI::new();
    let _ = ui.show(&mut epd);
    ui.conceal();
    assert!(!ui.is_visible());
    let plan = ui.push("unseen", &mut epd);
    assert!(plan.is_empty());
}

#[test]
fn console_binds_ui_and_driver() {
    let epd = test_driver();
    let mut console = EpdConsole::new(epd);
    assert_eq!(console.epd.state(), DriverState::Ready);
    let quiet = console.push("hidden line");
    assert!(quiet.is_empty());
    let plan = console.show();
    assert!(!plan.is_empty());
    assert_eq!(plan.last(), Some(&BusOp::DelayMs(50)));
    let visible_plan = console.push("seen line");
    assert!(!visible_plan.is_empty());
    console.conceal();
    let silent = console.push("silent again");
    assert!(silent.is_empty());
}

#[test]
fn set_border_changes_the_rendered_frame() {
    let mut epd = test_driver();
    let mut ui = ConsoleUI::new();
    ui.set_border(false);
    let plan = ui.show(&mut epd);
    let frame = plan
        .iter()
        .find_map(|op| match op {
            BusOp::Data(d) if d.len() == BUF_SIZE && d.iter().any(|b| *b != 0) => Some(()),
            _ => None,
        });
    // Empty history and no border: the rendered frame is fully blank.
    assert!(frame.is_none());
    assert!(ui.buffer.buffer().iter().all(|b| *b == 0));
}
