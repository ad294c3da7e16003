use logid::event::origin::Origin;
use logid::log_id::{LogId, LogLevel};
use logid::logging::event_entry::{AddonKind, FinalizedEvent, LogEventEntry};
use logid::logging::intermediary_event::IntermediaryLogEvent;
use logid::logging::msg::LogMsg;
use logid::terminal::{
    console_text, content_len, get_addon_prefix_len, get_event_string, get_level_color,
    get_level_space_alignment, layout_console, layout_event, terminal_lines, Palette, TermColor,
};

fn plain_palette() -> Palette {
    Palette {
        vbar: "│".to_string(),
        lcross: "├".to_string(),
        arrow: "───>".to_string(),
        lbot: "╰".to_string(),
        mbot: "┴".to_string(),
        addon_start: "|-->".to_string(),
        level_error: "ERR".to_string(),
        level_warn: "WARN".to_string(),
        level_info: "INFO".to_string(),
        level_debug: "DEBUG".to_string(),
        level_trace: "TRACE".to_string(),
        event: "Event".to_string(),
        origin: "Origin".to_string(),
        related: "Related".to_string(),
        info: "Info".to_string(),
        debug: "Debug".to_string(),
        trace: "Trace".to_string(),
        hint: "Hint".to_string(),
        note: "Note".to_string(),
        diagnostics: "Diagnostics".to_string(),
        payload: "Payload".to_string(),
    }
}

fn sample_event(msg: &str) -> IntermediaryLogEvent {
    IntermediaryLogEvent::with_entry_id(
        LogId::new("my_crate::m", "my_id", LogLevel::Error),
        Some(LogMsg::new(msg)),
        Origin::new("src/lib.rs", 12, "my_crate::m"),
        1,
    )
}

fn strip_styles(s: &str) -> String {
    let mut out = String::new();
    let mut in_seq = false;
    for c in s.chars() {
        if c == '\u{1b}' {
            in_seq = true;
        } else if in_seq {
            if c == 'm' {
                in_seq = false;
            }
        } else {
            out.push(c);
        }
    }
    out
}

#[test]
fn layout_with_ids_origin_and_multiline_addon() {
    let event = sample_event("first\nsecond").add_addon(AddonKind::Info("a\nb".to_string()), None);
    let lines = layout_event(event.get_entry(), true, true, &plain_palette());
    assert_eq!(
        lines,
        vec![
            "ERR   first".to_string(),
            "│     second".to_string(),
            "├───> Event: id='my_crate::m::my_id', entry='00000000-0000-0000-0000-000000000001'"
                .to_string(),
            "├───> Origin: module=\"my_crate::m\", file=\"src/lib.rs\", line=12".to_string(),
            "├───> Info: a".to_string(),
            "┴           b".to_string(),
        ]
    );
}

#[test]
fn layout_closes_last_branch() {
    let related = FinalizedEvent {
        event_id: LogId::new("other", "warned", LogLevel::Warn),
        entry_id: 2,
    };
    let event = sample_event("msg")
        .add_addon(AddonKind::Related(related), None)
        .add_addon(AddonKind::Hint("try again".to_string()), None);
    let lines = layout_event(event.get_entry(), false, false, &plain_palette());
    assert_eq!(
        lines,
        vec![
            "ERR   msg".to_string(),
            "├───> Related: lvl='WARN', id='other::warned', entry='00000000-0000-0000-0000-000000000002'"
                .to_string(),
            "╰───> Hint: try again".to_string(),
        ]
    );
}

#[test]
fn layout_of_single_line_event() {
    let event = sample_event("only");
    let lines = layout_event(event.get_entry(), false, false, &plain_palette());
    assert_eq!(lines, vec!["ERR   only".to_string()]);
    let empty = LogEventEntry::empty();
    assert_eq!(layout_event(&empty, false, false, &plain_palette()), Vec::<String>::new());
}

#[test]
fn terminal_lines_with_payload_and_colors() {
    let event = sample_event("msg")
        .add_addon(AddonKind::Payload(serde_json::Value::String("data".to_string())), None)
        .add_addon(AddonKind::Debug("dbg".to_string()), None);
    let lines: Vec<String> = terminal_lines(event.get_entry(), None)
        .iter()
        .map(|l| strip_styles(l))
        .collect();
    assert_eq!(
        lines,
        vec![
            "ERR   msg".to_string(),
            "├───> Debug: dbg".to_string(),
            "╰───> Payload: \"data\"".to_string(),
        ]
    );
}

#[test]
fn layout_helpers() {
    assert_eq!(get_addon_prefix_len("Info"), 12);
    assert_eq!(get_addon_prefix_len("Diagnostics"), 19);
    assert_eq!(get_addon_prefix_len("é"), 8 + "é".len());
    assert_eq!(get_addon_prefix_len("日本"), 8 + "日本".len());
    assert_eq!(get_addon_prefix_len("🦀"), 12);
    assert_eq!(get_level_space_alignment(LogLevel::Error), 3);
    assert_eq!(get_level_space_alignment(LogLevel::Debug), 1);
    assert_eq!(get_level_color(LogLevel::Warn), TermColor::Yellow);
    assert_eq!(get_level_color(LogLevel::Trace), TermColor::Cyan);
    let s: String = get_event_string(&LogId::new("a::b", "c", LogLevel::Info), 0xff).iter().collect();
    assert_eq!(s, "id='a::b::c', entry='00000000-0000-0000-0000-0000000000ff'");
}

#[test]
fn console_layout_lines() {
    let related = FinalizedEvent {
        event_id: LogId::new("other", "warned", LogLevel::Warn),
        entry_id: 2,
    };
    let event = sample_event("msg")
        .add_addon(AddonKind::Related(related), None)
        .add_addon(AddonKind::Info("an info".to_string()), None)
        .add_addon(AddonKind::Payload(serde_json::Value::Bool(true)), None);
    let text = layout_console(event.get_entry(), true, true, &plain_palette());
    assert_eq!(
        text,
        "ERR: msg\n\
         |--> Event: id='my_crate::m::my_id', entry='00000000-0000-0000-0000-000000000001'\n\
         |--> Origin: module=\"my_crate::m\", file=\"src/lib.rs\", line=12\n\
         |--> Info: an info\n\
         |--> Related: id='WARN: other::warned', entry='00000000-0000-0000-0000-000000000002'\n\
         |--> Payload: true\n"
    );
    let plain = strip_styles(&console_text(sample_event("only").get_entry(), None));
    assert_eq!(plain, "ERR: only\n");
}

#[test]
fn content_len_counts_bytes_of_lines() {
    assert_eq!(content_len(&vec!["Pa".to_string(), "|  b".to_string()]), 6);
    assert_eq!(content_len(&vec!["│ é".to_string()]), "│ é".len());
    assert_eq!(content_len(&Vec::new()), 0);
    let event = sample_event("first\nsecond").add_addon(AddonKind::Info("a\nb".to_string()), None);
    let lines = layout_event(event.get_entry(), true, true, &plain_palette());
    let expected: usize = lines.iter().map(|l| l.len()).sum();
    assert_eq!(content_len(&lines), expected);
}
