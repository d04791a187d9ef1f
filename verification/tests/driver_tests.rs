use epd_console::{BusOp, Command, DisplayMode, DriverState, Epd800x480, EpdBus, EpdDriverError,
    Rect, BUF_SIZE, hb, lb};

/// A driver over unit "hardware": the plans never touch it.
fn test_driver() -> Epd800x480<(), (), (), (), (), ()> {
    Epd800x480::new(EpdBus::new((), (), (), (), ()), ())
}

fn wait_ready_ops() -> Vec<BusOp> {
    vec![
        BusOp::LedHigh,
        BusOp::Cmd(0x71),
        BusOp::DelayMs(20),
        BusOp::WaitBusy,
        BusOp::LedLow,
    ]
}

#[test]
fn command_codes_are_the_panel_protocol() {
    assert_eq!(Command::PanelSetting.code(), 0x00);
    assert_eq!(Command::PowerSetting.code(), 0x01);
    assert_eq!(Command::PowerOff.code(), 0x02);
    assert_eq!(Command::PowerOn.code(), 0x04);
    assert_eq!(Command::DeepSleep.code(), 0x07);
    assert_eq!(Command::DataStartTransmission1.code(), 0x10);
    assert_eq!(Command::DisplayRefresh.code(), 0x12);
    assert_eq!(Command::DataStartTransmission2.code(), 0x13);
    assert_eq!(Command::GetStatus.code(), 0x71);
    assert_eq!(Command::PartialWindow.code(), 0x90);
    assert_eq!(Command::PartialIn.code(), 0x91);
    assert_eq!(Command::PartialOut.code(), 0x92);
}

#[test]
fn high_and_low_bytes() {
    assert_eq!(hb(800), 0x03);
    assert_eq!(lb(800), 0x20);
    assert_eq!(hb(480), 0x01);
    assert_eq!(lb(480), 0xE0);
    assert_eq!(hb(0xABCD), 0xAB);
    assert_eq!(lb(0xABCD), 0xCD);
}

#[test]
fn driver_state_machine() {
    let mut epd = test_driver();
    assert_eq!(epd.state(), DriverState::Uninitialized);
    let _ = epd.init();
    assert_eq!(epd.state(), DriverState::Ready);
    let _ = epd.sleep();
    assert_eq!(epd.state(), DriverState::Sleeping);
    let _ = epd.init();
    assert_eq!(epd.state(), DriverState::Ready);
    let _ = epd.hw_reset();
    assert_eq!(epd.state(), DriverState::Uninitialized);
}

#[test]
fn init_plan_is_the_documented_sequence() {
    let mut epd = test_driver();
    let plan = epd.init();
    let mut expected = vec![
        BusOp::RstHigh,
        BusOp::DelayMs(20),
        BusOp::RstLow,
        BusOp::DelayMs(2),
        BusOp::RstHigh,
        BusOp::DelayMs(20),
        BusOp::Cmd(0x01),
        BusOp::Data(vec![0x17, 0x17, 0x3f, 0x3f, 0x11]),
        BusOp::Cmd(0x82),
        BusOp::Data(vec![0x24]),
        BusOp::Cmd(0x06),
        BusOp::Data(vec![0x27, 0x27, 0x2F, 0x17]),
        BusOp::Cmd(0x30),
        BusOp::Data(vec![0x06]),
        BusOp::Cmd(0x04),
    ];
    expected.extend(wait_ready_ops());
    expected.extend(vec![
        BusOp::Cmd(0x00),
        BusOp::Data(vec![0x1F]),
        BusOp::Cmd(0x61),
        BusOp::Data(vec![0x03, 0x20, 0x01, 0xE0]),
        BusOp::Cmd(0x15),
        BusOp::Data(vec![0x00]),
        BusOp::Cmd(0x50),
        BusOp::Data(vec![0x10, 0x07]),
        BusOp::Cmd(0x60),
        BusOp::Data(vec![0x22]),
    ]);
    assert_eq!(plan, expected);
}

#[test]
fn display_rejects_wrong_buffer_length() {
    let mut epd = test_driver();
    let _ = epd.init();
    let buf = vec![0u8; BUF_SIZE - 1];
    let err = epd.display(&buf).unwrap_err();
    assert_eq!(err, EpdDriverError::BadBufferLen { expected: BUF_SIZE, got: BUF_SIZE - 1 });
}

#[test]
fn display_plan_writes_both_planes_and_refreshes() {
    let mut epd = test_driver();
    let _ = epd.init();
    let buf: Vec<u8> = (0..BUF_SIZE).map(|i| (i % 251) as u8).collect();
    let plan = epd.display(&buf).unwrap();
    assert_eq!(&plan[0..5], wait_ready_ops().as_slice());
    assert_eq!(plan[5], BusOp::Cmd(0x10));
    assert_eq!(plan[6], BusOp::Data(vec![0u8; BUF_SIZE]));
    assert_eq!(plan[7], BusOp::Cmd(0x13));
    assert_eq!(plan[8], BusOp::Data(buf.clone()));
    assert_eq!(plan[9], BusOp::Cmd(0x12));
    assert_eq!(&plan[10..15], wait_ready_ops().as_slice());
    assert_eq!(plan.len(), 15);
}

#[test]
fn display_partial_window_payload_is_big_endian_inclusive() {
    let mut epd = test_driver();
    let _ = epd.init();
    let rect = Rect { x: 8, y: 100, w: 16, h: 2 };
    let data = vec![0xAAu8, 0xBB, 0xCC, 0xDD];
    let plan = epd.display_partial(&data, rect);
    assert_eq!(&plan[0..5], wait_ready_ops().as_slice());
    assert_eq!(plan[5], BusOp::Cmd(0x91));
    assert_eq!(plan[6], BusOp::Cmd(0x90));
    // x_start=8, x_end=23, y_start=100, y_end=101, then the selector byte.
    assert_eq!(plan[7], BusOp::Data(vec![0, 8, 0, 23, 0, 100, 0, 101, 0x01]));
    assert_eq!(plan[8], BusOp::Cmd(0x13));
    assert_eq!(plan[9], BusOp::Data(data.clone()));
    assert_eq!(plan[10], BusOp::Cmd(0x12));
    assert_eq!(&plan[11..16], wait_ready_ops().as_slice());
    assert_eq!(plan[16], BusOp::Cmd(0x92));
    assert_eq!(plan.len(), 17);
}

#[test]
fn clear_plan_zeroes_both_planes() {
    let mut epd = test_driver();
    let _ = epd.init();
    let plan = epd.clear();
    assert_eq!(plan[5], BusOp::Cmd(0x10));
    assert_eq!(plan[6], BusOp::Data(vec![0u8; BUF_SIZE]));
    assert_eq!(plan[7], BusOp::Cmd(0x13));
    assert_eq!(plan[8], BusOp::Data(vec![0u8; BUF_SIZE]));
    assert_eq!(plan[9], BusOp::Cmd(0x12));
    assert_eq!(plan.len(), 15);
}

#[test]
fn sleep_plan_ends_with_the_magic_byte() {
    let mut epd = test_driver();
    let _ = epd.init();
    let plan = epd.sleep();
    assert_eq!(plan[0], BusOp::Cmd(0x02));
    assert_eq!(&plan[1..6], wait_ready_ops().as_slice());
    assert_eq!(plan[6], BusOp::Cmd(0x07));
    assert_eq!(plan[7], BusOp::Data(vec![0xA5]));
    assert_eq!(plan.len(), 8);
}

#[test]
fn flash_led_plan() {
    let epd = test_driver();
    let plan = epd.flash_led();
    assert_eq!(
        plan,
        vec![BusOp::DelayMs(500), BusOp::LedHigh, BusOp::DelayMs(500), BusOp::LedLow]
    );
}

#[test]
fn lut_set_tables_have_the_registered_bytes() {
    for mode in [DisplayMode::Official, DisplayMode::Fast, DisplayMode::Terminal] {
        let l = mode.lut_set();
        assert_eq!(l.voltage_frame, [0x06, 0x24, 0x24, 0x08, 0x14, 0x04, 0x10]);
        assert_eq!(l.vcom[0..12], [0x00, 0x0F, 0x0F, 0x00, 0x00, 0x02, 0x00, 0x02, 0x00, 0x02,
            0x00, 0x01]);
        assert_eq!(l.ww[0], 0x10);
        assert_eq!(l.bw[6], 0x84);
        assert_eq!(l.wb[0], 0x80);
        assert_eq!(l.bb[6], 0x40);
        assert!(l.vcom[12..].iter().all(|b| *b == 0));
    }
}

#[test]
fn set_mode_plan_loads_the_whole_bundle() {
    let mut epd = test_driver();
    let _ = epd.init();
    let l = DisplayMode::Terminal.lut_set();
    let plan = epd.set_mode(DisplayMode::Terminal);
    assert_eq!(plan[0], BusOp::Cmd(0x00));
    assert_eq!(plan[1], BusOp::Data(vec![0x3F]));
    assert_eq!(plan[2], BusOp::Cmd(0x06));
    assert_eq!(plan[3], BusOp::Data(l.voltage_frame.to_vec()));
    assert_eq!(plan[4], BusOp::Cmd(0x20));
    assert_eq!(plan[5], BusOp::Data(l.vcom.to_vec()));
    assert_eq!(plan[6], BusOp::Cmd(0x21));
    assert_eq!(plan[7], BusOp::Data(l.ww.to_vec()));
    assert_eq!(plan[8], BusOp::Cmd(0x22));
    assert_eq!(plan[9], BusOp::Data(l.bw.to_vec()));
    assert_eq!(plan[10], BusOp::Cmd(0x23));
    assert_eq!(plan[11], BusOp::Data(l.wb.to_vec()));
    assert_eq!(plan[12], BusOp::Cmd(0x24));
    assert_eq!(plan[13], BusOp::Data(l.bb.to_vec()));
    assert_eq!(plan.len(), 14);
}

#[test]
fn bus_reset_plan_uses_the_given_hold_times() {
    let mut bus = EpdBus::new((), (), (), (), ());
    let plan = bus.reset(200, 2, 200);
    assert_eq!(
        plan,
        vec![
            BusOp::RstHigh,
            BusOp::DelayMs(200),
            BusOp::RstLow,
            BusOp::DelayMs(2),
            BusOp::RstHigh,
            BusOp::DelayMs(200),
        ]
    );
}

#[test]
fn hw_reset_leaves_the_panel_uninitialised() {
    let mut epd = test_driver();
    let _ = epd.init();
    let plan = epd.hw_reset();
    assert_eq!(epd.state(), DriverState::Uninitialized);
    assert_eq!(plan.len(), 6);
    assert_eq!(plan[0], BusOp::RstHigh);
    assert_eq!(plan[1], BusOp::DelayMs(20));
}

#[test]
fn wait_ready_holds_the_indicator_high() {
    let epd = test_driver();
    let plan = epd.wait_ready();
    assert_eq!(plan, wait_ready_ops());
}
