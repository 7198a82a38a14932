use debugtrace::frame::StackFrame;
use debugtrace::traced::render;

fn known() -> StackFrame {
    StackFrame {
        ip: 0x104f888d8,
        name: Some(String::from("foo::h83f9455bde0e24228Oe")),
        addr: Some(0x104f888c0),
        file: Some(String::from("src/main.rs")),
        line: Some(6),
    }
}

#[test]
fn frame_text_with_everything_known() {
    assert_eq!(known().debug_string(), "     0x104f888d8 - foo::h83f9455bde0e24228Oe (src/main.rs:6)");
}

#[test]
fn frame_text_with_nothing_known() {
    let frame = StackFrame::unknown(0x104f9c312);
    assert_eq!(frame.ip, 0x104f9c312);
    assert_eq!(frame.name, None);
    assert_eq!(frame.addr, None);
    assert_eq!(frame.file, None);
    assert_eq!(frame.line, None);
    assert_eq!(frame.debug_string(), "     0x104f9c312 - <unknown> (<unknown>:<unknown>)");
}

#[test]
fn frame_text_marks_each_missing_field() {
    let mut frame = known();
    frame.file = None;
    frame.line = None;
    assert_eq!(frame.debug_string(), "     0x104f888d8 - foo::h83f9455bde0e24228Oe (<unknown>:<unknown>)");
    let mut frame = known();
    frame.name = None;
    assert_eq!(frame.debug_string(), "     0x104f888d8 - <unknown> (src/main.rs:6)");
    let mut frame = known();
    frame.line = None;
    assert_eq!(frame.debug_string(), "     0x104f888d8 - foo::h83f9455bde0e24228Oe (src/main.rs:<unknown>)");
}

#[test]
fn frame_text_keeps_an_empty_name_empty() {
    let mut frame = known();
    frame.name = Some(String::new());
    frame.file = Some(String::new());
    assert_eq!(frame.debug_string(), "     0x104f888d8 -  (:6)");
}

#[test]
fn frame_text_of_small_and_large_addresses() {
    assert_eq!(StackFrame::unknown(0).debug_string(), "             0x0 - <unknown> (<unknown>:<unknown>)");
    assert_eq!(StackFrame::unknown(9).debug_string(), "             0x9 - <unknown> (<unknown>:<unknown>)");
    assert_eq!(StackFrame::unknown(10).debug_string(), "             0xa - <unknown> (<unknown>:<unknown>)");
    assert_eq!(StackFrame::unknown(15).debug_string(), "             0xf - <unknown> (<unknown>:<unknown>)");
    assert_eq!(StackFrame::unknown(16).debug_string(), "            0x10 - <unknown> (<unknown>:<unknown>)");
    assert_eq!(StackFrame::unknown(0xdeadbeef).debug_string(), "      0xdeadbeef - <unknown> (<unknown>:<unknown>)");
    assert_eq!(
        StackFrame::unknown(0xabcd_ef01_2345).debug_string(),
        "  0xabcdef012345 - <unknown> (<unknown>:<unknown>)"
    );
    assert_eq!(
        StackFrame::unknown(0xabcd_ef01_2345_67).debug_string(),
        "0xabcdef01234567 - <unknown> (<unknown>:<unknown>)"
    );
    assert_eq!(
        StackFrame::unknown(0xabcd_ef01_2345_678).debug_string(),
        "0xabcdef012345678 - <unknown> (<unknown>:<unknown>)"
    );
    assert_eq!(
        StackFrame::unknown(usize::MAX).debug_string(),
        format!("{:#x} - <unknown> (<unknown>:<unknown>)", usize::MAX)
    );
}

#[test]
fn frame_text_is_what_the_formatter_writes() {
    let addresses: Vec<usize> = vec![0, 1, 255, 4096, 0x7fff_ffff, 0x55c7_6787_7c46, usize::MAX];
    for ip in addresses {
        let expected = format!("{:>16} - {} ({}:{})", format!("{:#x}", ip), "f", "m.rs", 4294967295u32);
        let frame = StackFrame {
            ip,
            name: Some(String::from("f")),
            addr: None,
            file: Some(String::from("m.rs")),
            line: Some(u32::MAX),
        };
        assert_eq!(frame.debug_string(), expected);
    }
}

#[test]
fn frame_line_numbers_in_base_ten() {
    let mut frame = known();
    frame.line = Some(0);
    assert!(frame.debug_string().ends_with("(src/main.rs:0)"));
    frame.line = Some(10);
    assert!(frame.debug_string().ends_with("(src/main.rs:10)"));
    frame.line = Some(2240);
    assert!(frame.debug_string().ends_with("(src/main.rs:2240)"));
}

#[test]
fn frames_compare_field_by_field() {
    assert!(known() == known());
    let mut other = known();
    other.line = Some(7);
    assert!(known() != other);
    assert!(known() < other);
    let mut other = known();
    other.addr = None;
    assert!(known() != other);
    assert!(StackFrame::unknown(1) < StackFrame::unknown(2));
    assert!(known().clone() == known());
}

#[test]
fn render_without_frames() {
    let frames: Vec<StackFrame> = Vec::new();
    assert_eq!(render("123", &frames), "123 at\n");
}

#[test]
fn render_numbers_the_frames_from_zero() {
    let mut second = StackFrame::unknown(0x104f9ab48);
    second.name = Some(String::from("__rust_try"));
    let frames = vec![known(), second];
    assert_eq!(
        render("123", &frames),
        "123 at\n   0       0x104f888d8 - foo::h83f9455bde0e24228Oe (src/main.rs:6)\n   1       0x104f9ab48 - __rust_try (<unknown>:<unknown>)\n"
    );
}

#[test]
fn render_widens_the_index_past_four_digits() {
    let mut frames: Vec<StackFrame> = Vec::new();
    let mut i: usize = 0;
    while i < 10001 {
        frames.push(StackFrame::unknown(i));
        i += 1;
    }
    let text = render("()", &frames);
    let lines: Vec<&str> = text.lines().collect();
    assert_eq!(lines.len(), 10002);
    assert_eq!(lines[0], "() at");
    assert_eq!(lines[1], "   0               0x0 - <unknown> (<unknown>:<unknown>)");
    assert_eq!(lines[10], "   9               0x9 - <unknown> (<unknown>:<unknown>)");
    assert_eq!(lines[11], "  10               0xa - <unknown> (<unknown>:<unknown>)");
    assert_eq!(lines[1000], " 999             0x3e7 - <unknown> (<unknown>:<unknown>)");
    assert_eq!(lines[10000], "9999            0x270f - <unknown> (<unknown>:<unknown>)");
    assert_eq!(lines[10001], "10000            0x2710 - <unknown> (<unknown>:<unknown>)");
    let mut i: usize = 0;
    while i < 10001 {
        assert!(lines[i + 1].starts_with(&format!("{:>4}  ", i)));
        i += 1;
    }
}

#[test]
fn render_keeps_the_text_of_the_value_as_it_is() {
    let frames = vec![StackFrame::unknown(1)];
    assert_eq!(
        render("Some(\"x\\ny\")", &frames),
        "Some(\"x\\ny\") at\n   0               0x1 - <unknown> (<unknown>:<unknown>)\n"
    );
    assert_eq!(render("", &Vec::new()), " at\n");
}
