//! The layouts in which a log event handler writes captured events to a terminal.
//!
//! In the terminal layout an event is shown as a header line with its level and main message,
//! followed by a line for each piece of information the filter lets show and for each addon of
//! the entry, joined by a tree drawn at the left edge in the colour of the event's level.
//! The console layout writes the same information as plain lines, each addon line starting
//! with `|-->` in the colour of the event's level.
use crate::event::origin::location_text;
use crate::layout::{
    entry_id_string, entry_id_text, lines_of, replace_first, replace_first_exec, spaces, spaces_exec,
    split_lines,
};
use crate::log_id::{LogId, LogIdView, LogLevel, append_chars, level_label};
use crate::logging::event_entry::{LogEventEntry, LogEventEntryView, strings_view};
use crate::logging::filter::log_filter::LogFilter;
use crate::logging::filter::addon::AddonFilter;
use crate::logging::filter::config::config_allows_addon;
use crate::text::{chars_of, copy_range, string_of, vview};
use colored::Colorize;
use vstd::prelude::*;

verus! {

/// The colours the terminal layout uses.
#[derive(Debug, Clone, Copy, PartialEq, Eq, Structural)]
pub enum TermColor {
    Red,
    Yellow,
    Green,
    Blue,
    Cyan,
}

/// The colour of a level: errors red, warnings yellow, infos green, debugs blue, traces cyan.
pub open spec fn level_color(level: LogLevel) -> TermColor {
    match level {
        LogLevel::Error => TermColor::Red,
        LogLevel::Warn => TermColor::Yellow,
        LogLevel::Info => TermColor::Green,
        LogLevel::Debug => TermColor::Blue,
        LogLevel::Trace => TermColor::Cyan,
    }
}

/// The colour of a level (see [`level_color`]).
pub fn get_level_color(level: LogLevel) -> (r: TermColor)
    ensures
        r == level_color(level),
{
    match level {
        LogLevel::Error => TermColor::Red,
        LogLevel::Warn => TermColor::Yellow,
        LogLevel::Info => TermColor::Green,
        LogLevel::Debug => TermColor::Blue,
        LogLevel::Trace => TermColor::Cyan,
    }
}

/// The code of the terminal's select-graphic-rendition sequence for a foreground colour.
pub open spec fn color_code(c: TermColor) -> Seq<char> {
    match c {
        TermColor::Red => seq!['3', '1'],
        TermColor::Yellow => seq!['3', '3'],
        TermColor::Green => seq!['3', '2'],
        TermColor::Blue => seq!['3', '4'],
        TermColor::Cyan => seq!['3', '6'],
    }
}

/// The code of bold text in a colour.
pub open spec fn bold_color_code(c: TermColor) -> Seq<char> {
    seq!['1', ';'] + color_code(c)
}

/// `text` between the sequence that selects the rendition `codes` and the one that resets it.
pub open spec fn styled(codes: Seq<char>, text: Seq<char>) -> Seq<char> {
    seq!['\u{1b}', '['] + codes + seq!['m'] + text + seq!['\u{1b}', '[', '0', 'm']
}

/// `r` is `text` shown with the rendition `codes`: the text itself where the terminal shows no
/// colours, the styled text where it does.
pub open spec fn shown(r: Seq<char>, codes: Seq<char>, text: Seq<char>) -> bool {
    r == text || r == styled(codes, text)
}

/// `s` holds no escape character.
pub open spec fn no_escape(s: Seq<char>) -> bool {
    forall|i: int| 0 <= i < s.len() ==> s[i] != '\u{1b}'
}

/// `text` in the colour `color`, as `colored` shows it.
///
/// Calls `Colorize::color` of `colored` and turns the result into a `String`. Whether colours
/// are shown depends on the environment and on whether the output is a terminal; the contract
/// claims that the result is the text itself or the text between the colour's sequence and the
/// reset sequence.
#[verifier::external_body]
fn paint(text: &str, color: TermColor) -> (r: String)
    requires
        no_escape(text@),
    ensures
        shown(r@, color_code(color), text@),
{
    let c = match color {
        TermColor::Red => colored::Color::Red,
        TermColor::Yellow => colored::Color::Yellow,
        TermColor::Green => colored::Color::Green,
        TermColor::Blue => colored::Color::Blue,
        TermColor::Cyan => colored::Color::Cyan,
    };
    text.color(c).to_string()
}

/// `text` in bold, as `colored` shows it.
///
/// Calls `Colorize::bold` of `colored` and turns the result into a `String`; the contract claims
/// that the result is the text itself or the text between the bold sequence and the reset
/// sequence.
#[verifier::external_body]
fn embolden(text: &str) -> (r: String)
    requires
        no_escape(text@),
    ensures
        shown(r@, seq!['1'], text@),
{
    text.bold().to_string()
}

/// `text` in bold and in the colour `color`, as `colored` shows it.
///
/// Calls `Colorize::bold`, then `Colorize::color` of `colored`, and turns the result into a
/// `String`; the contract claims that the result is the text itself or the text between the
/// sequence of bold text in that colour and the reset sequence.
#[verifier::external_body]
fn embolden_in(text: &str, color: TermColor) -> (r: String)
    requires
        no_escape(text@),
    ensures
        shown(r@, bold_color_code(color), text@),
{
    let c = match color {
        TermColor::Red => colored::Color::Red,
        TermColor::Yellow => colored::Color::Yellow,
        TermColor::Green => colored::Color::Green,
        TermColor::Blue => colored::Color::Blue,
        TermColor::Cyan => colored::Color::Cyan,
    };
    text.bold().color(c).to_string()
}

/// The message of a diagnostic (its field `message`).
pub uninterp spec fn diagnostic_message(d: lsp_types::Diagnostic) -> Seq<char>;

/// The JSON text of a payload, as `serde_json` writes it.
pub uninterp spec fn json_text(v: serde_json::Value) -> Seq<char>;

/// The message of a diagnostic.
///
/// Reads the field `message` of `lsp_types::Diagnostic`; the contract names the result.
#[verifier::external_body]
fn message_of(d: &lsp_types::Diagnostic) -> (r: String)
    ensures
        r@ == diagnostic_message(*d),
{
    d.message.clone()
}

/// The JSON text of a payload.
///
/// Calls `ToString::to_string` on a `serde_json::Value`, which writes it through its `Display`
/// impl as compact JSON; the contract names the result, which depends on the value alone.
#[verifier::external_body]
fn payload_text(v: &serde_json::Value) -> (r: String)
    ensures
        r@ == json_text(*v),
{
    v.to_string()
}

/// The decorations and labels of the terminal layout for an event, as the terminal shows them.
pub struct Palette {
    /// The vertical bar of the tree, `│`, in the event's colour.
    pub vbar: String,
    /// The branch of the tree, `├`, in the event's colour.
    pub lcross: String,
    /// The arrow after a branch, `───>`, in the event's colour.
    pub arrow: String,
    /// The bottom of the tree, `╰`, in the event's colour.
    pub lbot: String,
    /// The end of a bar on the last line, `┴`, in the event's colour.
    pub mbot: String,
    /// The start of an addon line of the console layout, `|-->`, in the event's colour.
    pub addon_start: String,
    /// The label of each level, bold and in the level's colour.
    pub level_error: String,
    pub level_warn: String,
    pub level_info: String,
    pub level_debug: String,
    pub level_trace: String,
    /// The labels of the lines, bold; those of infos, debugs, traces, hints and notes in
    /// their colours.
    pub event: String,
    pub origin: String,
    pub related: String,
    pub info: String,
    pub debug: String,
    pub trace: String,
    pub hint: String,
    pub note: String,
    pub diagnostics: String,
    pub payload: String,
}

/// The mathematical model of a [`Palette`].
pub struct PaletteView {
    pub vbar: Seq<char>,
    pub lcross: Seq<char>,
    pub arrow: Seq<char>,
    pub lbot: Seq<char>,
    pub mbot: Seq<char>,
    pub addon_start: Seq<char>,
    pub level_error: Seq<char>,
    pub level_warn: Seq<char>,
    pub level_info: Seq<char>,
    pub level_debug: Seq<char>,
    pub level_trace: Seq<char>,
    pub event: Seq<char>,
    pub origin: Seq<char>,
    pub related: Seq<char>,
    pub info: Seq<char>,
    pub debug: Seq<char>,
    pub trace: Seq<char>,
    pub hint: Seq<char>,
    pub note: Seq<char>,
    pub diagnostics: Seq<char>,
    pub payload: Seq<char>,
}

impl View for Palette {
    type V = PaletteView;

    open spec fn view(&self) -> PaletteView {
        PaletteView {
            vbar: self.vbar@,
            lcross: self.lcross@,
            arrow: self.arrow@,
            lbot: self.lbot@,
            mbot: self.mbot@,
            addon_start: self.addon_start@,
            level_error: self.level_error@,
            level_warn: self.level_warn@,
            level_info: self.level_info@,
            level_debug: self.level_debug@,
            level_trace: self.level_trace@,
            event: self.event@,
            origin: self.origin@,
            related: self.related@,
            info: self.info@,
            debug: self.debug@,
            trace: self.trace@,
            hint: self.hint@,
            note: self.note@,
            diagnostics: self.diagnostics@,
            payload: self.payload@,
        }
    }
}

/// The label of `level` in the palette `p`.
pub open spec fn level_text(p: PaletteView, level: LogLevel) -> Seq<char> {
    match level {
        LogLevel::Error => p.level_error,
        LogLevel::Warn => p.level_warn,
        LogLevel::Info => p.level_info,
        LogLevel::Debug => p.level_debug,
        LogLevel::Trace => p.level_trace,
    }
}

/// `p` is the palette of an event of level `level`: each decoration shown in the level's
/// colour, each label shown as the layout asks.
pub open spec fn palette_for(p: PaletteView, level: LogLevel) -> bool {
    let c = color_code(level_color(level));
    &&& shown(p.vbar, c, "│"@)
    &&& shown(p.lcross, c, "├"@)
    &&& shown(p.arrow, c, "───>"@)
    &&& shown(p.lbot, c, "╰"@)
    &&& shown(p.mbot, c, "┴"@)
    &&& shown(p.addon_start, c, "|-->"@)
    &&& forall|l: LogLevel| shown(#[trigger] level_text(p, l), bold_color_code(level_color(l)), level_label(l))
    &&& shown(p.event, seq!['1'], "Event"@)
    &&& shown(p.origin, seq!['1'], "Origin"@)
    &&& shown(p.related, seq!['1'], "Related"@)
    &&& shown(p.info, bold_color_code(TermColor::Green), "Info"@)
    &&& shown(p.debug, bold_color_code(TermColor::Blue), "Debug"@)
    &&& shown(p.trace, bold_color_code(TermColor::Cyan), "Trace"@)
    &&& shown(p.hint, bold_color_code(TermColor::Cyan), "Hint"@)
    &&& shown(p.note, bold_color_code(TermColor::Cyan), "Note"@)
    &&& shown(p.diagnostics, seq!['1'], "Diagnostics"@)
    &&& shown(p.payload, seq!['1'], "Payload"@)
}

/// The label of `level`, bold and in the level's colour.
pub fn get_colored_level(level: LogLevel) -> (r: String)
    ensures
        shown(r@, bold_color_code(level_color(level)), level_label(level)),
{
    let label = level.to_string();
    embolden_in(label.as_str(), get_level_color(level))
}

/// The palette of an event of level `level`.
pub fn palette(level: LogLevel) -> (r: Palette)
    ensures
        palette_for(r@, level),
{
    let c = get_level_color(level);
    proof {
        reveal_strlit("│");
        reveal_strlit("├");
        reveal_strlit("───>");
        reveal_strlit("╰");
        reveal_strlit("┴");
        reveal_strlit("|-->");
        reveal_strlit("Event");
        reveal_strlit("Origin");
        reveal_strlit("Related");
        reveal_strlit("Info");
        reveal_strlit("Debug");
        reveal_strlit("Trace");
        reveal_strlit("Hint");
        reveal_strlit("Note");
        reveal_strlit("Diagnostics");
        reveal_strlit("Payload");
    }
    let r = Palette {
        vbar: paint("│", c),
        lcross: paint("├", c),
        arrow: paint("───>", c),
        lbot: paint("╰", c),
        mbot: paint("┴", c),
        addon_start: paint("|-->", c),
        level_error: get_colored_level(LogLevel::Error),
        level_warn: get_colored_level(LogLevel::Warn),
        level_info: get_colored_level(LogLevel::Info),
        level_debug: get_colored_level(LogLevel::Debug),
        level_trace: get_colored_level(LogLevel::Trace),
        event: embolden("Event"),
        origin: embolden("Origin"),
        related: embolden("Related"),
        info: embolden_in("Info", get_level_color(LogLevel::Info)),
        debug: embolden_in("Debug", get_level_color(LogLevel::Debug)),
        trace: embolden_in("Trace", get_level_color(LogLevel::Trace)),
        hint: embolden_in("Hint", TermColor::Cyan),
        note: embolden_in("Note", TermColor::Cyan),
        diagnostics: embolden("Diagnostics"),
        payload: embolden("Payload"),
    };
    assert forall|l: LogLevel| shown(#[trigger] level_text(r@, l), bold_color_code(level_color(l)), level_label(l)) by {
        match l {
            LogLevel::Error => {},
            LogLevel::Warn => {},
            LogLevel::Info => {},
            LogLevel::Debug => {},
            LogLevel::Trace => {},
        }
    }
    r
}

/// The lines of `text` set after a first-line prefix: the first line behind `prefix`, each
/// further line behind the bar `bar` and an indent of one less than `prefix_len` spaces, so
/// that all lines of the text start in one column.
pub open spec fn block(prefix: Seq<char>, prefix_len: nat, text: Seq<char>, bar: Seq<char>) -> Seq<Seq<char>> {
    let ls = lines_of(text);
    let indent = spaces(if prefix_len >= 1 { (prefix_len - 1) as nat } else { 0 });
    if ls.len() == 0 {
        Seq::empty()
    } else {
        seq![prefix + ls[0]] + ls.drop_first().map_values(|l: Seq<char>| bar + indent + l)
    }
}

/// The blocks of the texts `texts`, one after the other, each set after `prefix`.
pub open spec fn blocks(prefix: Seq<char>, prefix_len: nat, texts: Seq<Seq<char>>, bar: Seq<char>) -> Seq<Seq<char>> {
    texts.map_values(|t: Seq<char>| block(prefix, prefix_len, t, bar)).flatten()
}

/// The number of bytes of `c` in UTF-8.
pub open spec fn utf8_width(c: char) -> nat {
    if c <= '\u{7f}' {
        1
    } else if c <= '\u{7ff}' {
        2
    } else if c <= '\u{ffff}' {
        3
    } else {
        4
    }
}

/// The number of bytes of `s` in UTF-8.
pub open spec fn utf8_len(s: Seq<char>) -> nat
    decreases s.len(),
{
    if s.len() == 0 {
        0
    } else {
        utf8_len(s.drop_last()) + utf8_width(s.last())
    }
}

/// The width of the prefix of an addon of the kind `kind`: the number of bytes of `|---> : `
/// and of the kind (the prefix is measured in bytes, in which the ASCII arrow `|--->` is as
/// wide as the drawn one).
pub open spec fn addon_prefix_len(kind: Seq<char>) -> nat {
    8 + utf8_len(kind)
}

/// The prefix of a line with the label `label`: a branch, an arrow, a space, the label, a colon
/// and a space.
pub open spec fn kind_prefix(p: PaletteView, label: Seq<char>) -> Seq<char> {
    p.lcross + p.arrow + seq![' '] + label + seq![':', ' ']
}

/// The text of an event of log-id `id` whose entry has the id `entry_id`:
/// `id='<module path>::<identifier>', entry='<entry id>'`.
pub open spec fn event_text(id: LogIdView, entry_id: u128) -> Seq<char> {
    seq!['i', 'd', '=', '\''] + id.module + seq![':', ':'] + id.identifier + seq![
        '\'',
        ',',
        ' ',
        'e',
        'n',
        't',
        'r',
        'y',
        '=',
        '\'',
    ] + entry_id_text(entry_id) + seq!['\'']
}

/// The line of a related event: `lvl='<level>', ` and the event's text.
pub open spec fn related_line(p: PaletteView, r: (LogIdView, u128)) -> Seq<char> {
    kind_prefix(p, p.related) + seq!['l', 'v', 'l', '=', '\''] + level_text(p, r.0.level) + seq![
        '\'',
        ',',
        ' ',
    ] + event_text(r.0, r.1)
}

/// The prefix of the header of an event of level `level`: the level's label and the spaces
/// that align what follows in the column of a six-character label.
pub open spec fn header_prefix(p: PaletteView, level: LogLevel) -> Seq<char> {
    level_text(p, level) + spaces((6 - level_label(level).len()) as nat)
}

/// The text of an optional main message; none if there is no message.
pub open spec fn msg_text(m: Option<Seq<char>>) -> Seq<char> {
    match m {
        Some(t) => t,
        None => Seq::empty(),
    }
}

/// The lines of an event with entry `e`, before the last line is closed: the header, the
/// event's ids where `show_id` holds, its origin where `show_origin` holds, its related events,
/// infos, debugs, traces, hints, notes, diagnostics and payloads.
pub open spec fn body_lines(e: LogEventEntryView, show_id: bool, show_origin: bool, p: PaletteView) -> Seq<Seq<char>> {
    block(header_prefix(p, e.event_id.level), 6, msg_text(e.msg), p.vbar) + (if show_id {
        seq![kind_prefix(p, p.event) + event_text(e.event_id, e.entry_id)]
    } else {
        Seq::empty()
    }) + (if show_origin {
        seq![kind_prefix(p, p.origin) + location_text(e.origin)]
    } else {
        Seq::empty()
    }) + e.related.map_values(|r: (LogIdView, u128)| related_line(p, r)) + blocks(
        kind_prefix(p, p.info),
        addon_prefix_len("Info"@),
        e.infos,
        p.vbar,
    ) + blocks(kind_prefix(p, p.debug), addon_prefix_len("Debug"@), e.debugs, p.vbar) + blocks(
        kind_prefix(p, p.trace),
        addon_prefix_len("Trace"@),
        e.traces,
        p.vbar,
    ) + blocks(kind_prefix(p, p.hint), addon_prefix_len("Hint"@), e.hints, p.vbar) + blocks(
        kind_prefix(p, p.note),
        addon_prefix_len("Note"@),
        e.notes,
        p.vbar,
    ) + blocks(
        kind_prefix(p, p.diagnostics),
        addon_prefix_len("Diagnostics"@),
        e.diagnostics.map_values(|d: lsp_types::Diagnostic| diagnostic_message(d)),
        p.vbar,
    ) + blocks(
        kind_prefix(p, p.payload),
        addon_prefix_len("Payload"@),
        e.payloads.map_values(|v: serde_json::Value| json_text(v)),
        p.vbar,
    )
}

/// `lines` with the last line closed, where there is more than one line: its first branch
/// turned into the bottom of the tree and its first bar into the end of a bar.
pub open spec fn close_lines(lines: Seq<Seq<char>>, p: PaletteView) -> Seq<Seq<char>> {
    if lines.len() > 1 {
        lines.drop_last().push(replace_first(replace_first(lines.last(), p.lcross, p.lbot), p.vbar, p.mbot))
    } else {
        lines
    }
}

/// The lines in which the terminal shows an event with entry `e` in the palette `p`.
pub open spec fn terminal_layout(e: LogEventEntryView, show_id: bool, show_origin: bool, p: PaletteView) -> Seq<Seq<char>> {
    close_lines(body_lines(e, show_id, show_origin, p), p)
}

/// The width of the prefix of an addon of the kind `kind` (see [`addon_prefix_len`]).
pub fn get_addon_prefix_len(kind: &str) -> (r: usize)
    requires
        4 * kind@.len() + 8 <= usize::MAX,
    ensures
        r == addon_prefix_len(kind@),
{
    let v = chars_of(kind);
    let mut n: usize = 8;
    let mut i: usize = 0;
    while i < v.len()
        invariant
            i <= v.len(),
            v@ == kind@,
            4 * kind@.len() + 8 <= usize::MAX,
            n == 8 + utf8_len(v@.take(i as int)),
            utf8_len(v@.take(i as int)) <= 4 * i,
        decreases v.len() - i,
    {
        let c = v[i];
        let w: usize = if c <= '\u{7f}' {
            1
        } else if c <= '\u{7ff}' {
            2
        } else if c <= '\u{ffff}' {
            3
        } else {
            4
        };
        assert(v@.take(i + 1).drop_last() =~= v@.take(i as int));
        n = n + w;
        i = i + 1;
    }
    assert(v@.take(v.len() as int) =~= v@);
    n
}

/// `a` followed by `b`.
fn concat(a: &Vec<char>, b: &Vec<char>) -> (r: Vec<char>)
    ensures
        r@ == a@ + b@,
{
    let mut r = copy_range(a, 0, a.len());
    assert(r@ =~= a@);
    append_chars(&mut r, b);
    r
}

/// Adds the block of `text` after `prefix` (see [`block`]) to `lines`.
fn push_block(lines: &mut Vec<Vec<char>>, prefix: &Vec<char>, prefix_len: usize, text: &Vec<char>, bar: &Vec<char>)
    ensures
        vview(final(lines)@) == vview(old(lines)@) + block(prefix@, prefix_len as nat, text@, bar@),
{
    let ls = split_lines(text);
    let n: usize = if prefix_len >= 1 { prefix_len - 1 } else { 0 };
    let indent = spaces_exec(n);
    let ghost ind = spaces(if prefix_len >= 1 { (prefix_len - 1) as nat } else { 0 });
    assert(indent@ == ind);
    let ghost lsv = lines_of(text@);
    assert(vview(ls@) == lsv);
    assert(vview(ls@).len() == ls.len());
    if ls.len() == 0 {
        assert(vview(old(lines)@) + block(prefix@, prefix_len as nat, text@, bar@) =~= vview(lines@));
        return;
    }
    assert(ls@[0]@ == lsv[0]);
    let first = concat(prefix, &ls[0]);
    let ghost start = vview(lines@);
    lines.push(first);
    assert(vview(lines@) =~= start + seq![prefix@ + lsv[0]]);
    let bar_indent = concat(bar, &indent);
    let mut i: usize = 1;
    while i < ls.len()
        invariant
            1 <= i <= ls.len(),
            vview(ls@) == lsv,
            bar_indent@ == bar@ + ind,
            vview(lines@) == start + seq![prefix@ + lsv[0]] + lsv.subrange(1, i as int).map_values(
                |l: Seq<char>| bar@ + ind + l,
            ),
        decreases ls.len() - i,
    {
        assert(ls@[i as int]@ == lsv[i as int]);
        let line = concat(&bar_indent, &ls[i]);
        let ghost before = vview(lines@);
        lines.push(line);
        assert(vview(lines@) =~= before.push(bar@ + ind + lsv[i as int]));
        assert(lsv.subrange(1, i + 1) =~= lsv.subrange(1, i as int).push(lsv[i as int]));
        assert(lsv.subrange(1, i + 1).map_values(|l: Seq<char>| bar@ + ind + l) =~= lsv.subrange(
            1,
            i as int,
        ).map_values(|l: Seq<char>| bar@ + ind + l).push(bar@ + ind + lsv[i as int]));
        i = i + 1;
    }
    assert(lsv.subrange(1, ls.len() as int) =~= lsv.drop_first());
    assert(vview(lines@) =~= vview(old(lines)@) + block(prefix@, prefix_len as nat, text@, bar@));
}

/// Adds the blocks of the texts `texts` after `prefix` (see [`blocks`]) to `lines`.
fn push_blocks(lines: &mut Vec<Vec<char>>, prefix: &Vec<char>, prefix_len: usize, texts: &Vec<String>, bar: &Vec<char>)
    ensures
        vview(final(lines)@) == vview(old(lines)@) + blocks(prefix@, prefix_len as nat, strings_view(texts@), bar@),
{
    let ghost tv = strings_view(texts@);
    let ghost f = |t: Seq<char>| block(prefix@, prefix_len as nat, t, bar@);
    let mut i: usize = 0;
    assert(tv.take(0).map_values(f).flatten() =~= Seq::<Seq<char>>::empty()) by {
        assert(tv.take(0).map_values(f) =~= Seq::<Seq<Seq<char>>>::empty());
    }
    assert(vview(lines@) =~= vview(old(lines)@) + tv.take(0).map_values(f).flatten());
    while i < texts.len()
        invariant
            i <= texts.len(),
            tv == strings_view(texts@),
            f == (|t: Seq<char>| block(prefix@, prefix_len as nat, t, bar@)),
            vview(lines@) == vview(old(lines)@) + tv.take(i as int).map_values(f).flatten(),
        decreases texts.len() - i,
    {
        let text = chars_of(texts[i].as_str());
        assert(text@ == tv[i as int]);
        let ghost before = vview(lines@);
        push_block(lines, prefix, prefix_len, &text, bar);
        proof {
            let xs = tv.take(i as int).map_values(f);
            assert(tv.take(i + 1).map_values(f) =~= xs.push(f(tv[i as int])));
            xs.lemma_flatten_push(f(tv[i as int]));
        }
        i = i + 1;
    }
    assert(tv.take(texts.len() as int) =~= tv);
}

/// The prefix of a line with the label `label` (see [`kind_prefix`]).
fn kind_prefix_exec(p: &Palette, label: &String) -> (r: Vec<char>)
    ensures
        r@ == kind_prefix(p@, label@),
{
    let mut r = chars_of(p.lcross.as_str());
    append_chars(&mut r, &chars_of(p.arrow.as_str()));
    r.push(' ');
    append_chars(&mut r, &chars_of(label.as_str()));
    r.push(':');
    r.push(' ');
    assert(r@ =~= kind_prefix(p@, label@));
    r
}

/// The text of an event of log-id `id` whose entry has the id `entry_id` (see [`event_text`]).
pub fn get_event_string(id: &LogId, entry_id: u128) -> (r: Vec<char>)
    ensures
        r@ == event_text(id@, entry_id),
{
    let mut r: Vec<char> = vec!['i', 'd', '=', '\''];
    append_chars(&mut r, &chars_of(id.get_module_path()));
    r.push(':');
    r.push(':');
    append_chars(&mut r, &chars_of(id.get_identifier()));
    let mid: Vec<char> = vec!['\'', ',', ' ', 'e', 'n', 't', 'r', 'y', '=', '\''];
    append_chars(&mut r, &mid);
    append_chars(&mut r, &entry_id_string(entry_id));
    r.push('\'');
    assert(r@ =~= event_text(id@, entry_id));
    r
}

/// The label of `level` in the palette `p`.
fn level_text_exec(p: &Palette, level: LogLevel) -> (r: &String)
    ensures
        r@ == level_text(p@, level),
{
    match level {
        LogLevel::Error => &p.level_error,
        LogLevel::Warn => &p.level_warn,
        LogLevel::Info => &p.level_info,
        LogLevel::Debug => &p.level_debug,
        LogLevel::Trace => &p.level_trace,
    }
}

/// Adds the line of each related event of `entry` to `lines`.
fn push_related(lines: &mut Vec<Vec<char>>, entry: &LogEventEntry, p: &Palette)
    ensures
        vview(final(lines)@) == vview(old(lines)@) + entry@.related.map_values(
            |r: (LogIdView, u128)| related_line(p@, r),
        ),
{
    let related = entry.get_related();
    let ghost rv = entry@.related;
    let ghost f = |r: (LogIdView, u128)| related_line(p@, r);
    let prefix = kind_prefix_exec(p, &p.related);
    let mut i: usize = 0;
    while i < related.len()
        invariant
            i <= related.len(),
            rv == entry@.related,
            rv == crate::logging::event_entry::related_view(related@),
            prefix@ == kind_prefix(p@, p@.related),
            f == (|r: (LogIdView, u128)| related_line(p@, r)),
            vview(lines@) == vview(old(lines)@) + rv.take(i as int).map_values(f),
        decreases related.len() - i,
    {
        let ev = related[i];
        assert(rv[i as int] == (ev.event_id@, ev.entry_id));
        let mut line = copy_range(&prefix, 0, prefix.len());
        let lvl: Vec<char> = vec!['l', 'v', 'l', '=', '\''];
        append_chars(&mut line, &lvl);
        append_chars(&mut line, &chars_of(level_text_exec(p, ev.event_id.get_log_level()).as_str()));
        let sep: Vec<char> = vec!['\'', ',', ' '];
        append_chars(&mut line, &sep);
        append_chars(&mut line, &get_event_string(&ev.event_id, ev.entry_id));
        assert(line@ =~= f(rv[i as int]));
        let ghost before = vview(lines@);
        lines.push(line);
        assert(vview(lines@) =~= before.push(f(rv[i as int])));
        assert(rv.take(i + 1).map_values(f) =~= rv.take(i as int).map_values(f).push(f(rv[i as int])));
        i = i + 1;
    }
    assert(rv.take(related.len() as int) =~= rv);
}

/// The message of each diagnostic of `diagnostics`.
fn diagnostic_messages(diagnostics: &Vec<lsp_types::Diagnostic>) -> (r: Vec<String>)
    ensures
        strings_view(r@) == diagnostics@.map_values(|d: lsp_types::Diagnostic| diagnostic_message(d)),
{
    let mut r: Vec<String> = Vec::new();
    let mut i: usize = 0;
    while i < diagnostics.len()
        invariant
            i <= diagnostics.len(),
            strings_view(r@) == diagnostics@.take(i as int).map_values(
                |d: lsp_types::Diagnostic| diagnostic_message(d),
            ),
        decreases diagnostics.len() - i,
    {
        let m = message_of(&diagnostics[i]);
        let ghost before = strings_view(r@);
        let ghost mv = m@;
        assert(mv == diagnostic_message(diagnostics@[i as int]));
        r.push(m);
        assert(strings_view(r@) =~= before.push(mv));
        assert(diagnostics@.take(i + 1) =~= diagnostics@.take(i as int).push(diagnostics@[i as int]));
        assert(strings_view(r@) =~= diagnostics@.take(i + 1).map_values(
            |d: lsp_types::Diagnostic| diagnostic_message(d),
        ));
        i = i + 1;
    }
    assert(diagnostics@.take(diagnostics.len() as int) =~= diagnostics@);
    r
}

/// The JSON text of each payload of `payloads`.
fn payload_texts(payloads: &Vec<serde_json::Value>) -> (r: Vec<String>)
    ensures
        strings_view(r@) == payloads@.map_values(|v: serde_json::Value| json_text(v)),
{
    let mut r: Vec<String> = Vec::new();
    let mut i: usize = 0;
    while i < payloads.len()
        invariant
            i <= payloads.len(),
            strings_view(r@) == payloads@.take(i as int).map_values(
                |v: serde_json::Value| json_text(v),
            ),
        decreases payloads.len() - i,
    {
        let t = payload_text(&payloads[i]);
        let ghost before = strings_view(r@);
        let ghost tv = t@;
        assert(tv == json_text(payloads@[i as int]));
        r.push(t);
        assert(strings_view(r@) =~= before.push(tv));
        assert(payloads@.take(i + 1) =~= payloads@.take(i as int).push(payloads@[i as int]));
        assert(strings_view(r@) =~= payloads@.take(i + 1).map_values(
            |v: serde_json::Value| json_text(v),
        ));
        i = i + 1;
    }
    assert(payloads@.take(payloads.len() as int) =~= payloads@);
    r
}

/// The number of spaces that align what follows the label of `level` in the column of a
/// six-character label.
pub fn get_level_space_alignment(level: LogLevel) -> (r: usize)
    ensures
        r == 6 - level_label(level).len(),
{
    match level {
        LogLevel::Error => 3,
        LogLevel::Warn => 2,
        LogLevel::Info => 2,
        LogLevel::Debug => 1,
        LogLevel::Trace => 1,
    }
}

/// Closes the last of `lines` (see [`close_lines`]).
fn close_last_line(lines: &mut Vec<Vec<char>>, p: &Palette)
    ensures
        vview(final(lines)@) == close_lines(vview(old(lines)@), p@),
{
    if lines.len() > 1 {
        let ghost all = vview(lines@);
        let last = lines.pop().unwrap();
        assert(last@ == all.last());
        let lcross = chars_of(p.lcross.as_str());
        let lbot = chars_of(p.lbot.as_str());
        let vbar = chars_of(p.vbar.as_str());
        let mbot = chars_of(p.mbot.as_str());
        let a = replace_first_exec(&last, &lcross, &lbot);
        let b = replace_first_exec(&a, &vbar, &mbot);
        let ghost before = vview(lines@);
        assert(before =~= all.drop_last());
        lines.push(b);
        assert(vview(lines@) =~= before.push(b@));
    }
}

/// The `String` of each line of `lines`.
fn strings_of(lines: &Vec<Vec<char>>) -> (r: Vec<String>)
    ensures
        strings_view(r@) == vview(lines@),
{
    let mut r: Vec<String> = Vec::new();
    let mut i: usize = 0;
    while i < lines.len()
        invariant
            i <= lines.len(),
            strings_view(r@) == vview(lines@).take(i as int),
        decreases lines.len() - i,
    {
        let s = string_of(&lines[i]);
        let ghost before = strings_view(r@);
        let ghost sv = s@;
        r.push(s);
        assert(strings_view(r@) =~= before.push(sv));
        assert(vview(lines@).take(i + 1) =~= vview(lines@).take(i as int).push(lines@[i as int]@));
        i = i + 1;
    }
    assert(vview(lines@).take(lines.len() as int) =~= vview(lines@));
    r
}

/// The lines in which the terminal shows an event with entry `entry` in the palette `p`;
/// `show_id` and `show_origin` tell whether its ids and its origin are shown.
pub fn layout_event(entry: &LogEventEntry, show_id: bool, show_origin: bool, p: &Palette) -> (r: Vec<String>)
    ensures
        strings_view(r@) == terminal_layout(entry@, show_id, show_origin, p@),
{
    let ghost e = entry@;
    let ghost pv = p@;
    let mut lines: Vec<Vec<char>> = Vec::new();
    let level = entry.get_level();
    let mut prefix = chars_of(level_text_exec(p, level).as_str());
    append_chars(&mut prefix, &spaces_exec(get_level_space_alignment(level)));
    assert(prefix@ == header_prefix(pv, e.event_id.level));
    let msg = match entry.get_msg() {
        Some(m) => chars_of(m.as_str()),
        None => Vec::new(),
    };
    assert(msg@ =~= msg_text(e.msg));
    let bar = chars_of(p.vbar.as_str());
    push_block(&mut lines, &prefix, 6, &msg, &bar);
    let ghost a0 = block(header_prefix(pv, e.event_id.level), 6, msg_text(e.msg), pv.vbar);
    assert(vview(lines@) =~= a0);
    let ghost s1 = if show_id {
        seq![kind_prefix(pv, pv.event) + event_text(e.event_id, e.entry_id)]
    } else {
        Seq::empty()
    };
    if show_id {
        let line = concat(&kind_prefix_exec(p, &p.event), &get_event_string(&entry.get_event_id(), entry.get_entry_id()));
        lines.push(line);
    }
    assert(vview(lines@) =~= a0 + s1);
    let ghost s2 = if show_origin {
        seq![kind_prefix(pv, pv.origin) + location_text(e.origin)]
    } else {
        Seq::empty()
    };
    if show_origin {
        let line = concat(&kind_prefix_exec(p, &p.origin), &entry.get_origin().location());
        lines.push(line);
    }
    assert(vview(lines@) =~= a0 + s1 + s2);
    push_related(&mut lines, entry, p);
    let ghost a3 = a0 + s1 + s2 + e.related.map_values(|r: (LogIdView, u128)| related_line(pv, r));
    assert(vview(lines@) == a3);
    proof {
        reveal_strlit("Info");
        reveal_strlit("Debug");
        reveal_strlit("Trace");
        reveal_strlit("Hint");
        reveal_strlit("Note");
        reveal_strlit("Diagnostics");
        reveal_strlit("Payload");
    }
    push_blocks(&mut lines, &kind_prefix_exec(p, &p.info), get_addon_prefix_len("Info"), entry.get_infos(), &bar);
    let ghost a4 = a3 + blocks(kind_prefix(pv, pv.info), addon_prefix_len("Info"@), e.infos, pv.vbar);
    assert(vview(lines@) == a4);
    push_blocks(&mut lines, &kind_prefix_exec(p, &p.debug), get_addon_prefix_len("Debug"), entry.get_debugs(), &bar);
    let ghost a5 = a4 + blocks(kind_prefix(pv, pv.debug), addon_prefix_len("Debug"@), e.debugs, pv.vbar);
    assert(vview(lines@) == a5);
    push_blocks(&mut lines, &kind_prefix_exec(p, &p.trace), get_addon_prefix_len("Trace"), entry.get_traces(), &bar);
    let ghost a6 = a5 + blocks(kind_prefix(pv, pv.trace), addon_prefix_len("Trace"@), e.traces, pv.vbar);
    assert(vview(lines@) == a6);
    push_blocks(&mut lines, &kind_prefix_exec(p, &p.hint), get_addon_prefix_len("Hint"), entry.get_hints(), &bar);
    let ghost a7 = a6 + blocks(kind_prefix(pv, pv.hint), addon_prefix_len("Hint"@), e.hints, pv.vbar);
    assert(vview(lines@) == a7);
    push_blocks(&mut lines, &kind_prefix_exec(p, &p.note), get_addon_prefix_len("Note"), entry.get_notes(), &bar);
    let ghost a8 = a7 + blocks(kind_prefix(pv, pv.note), addon_prefix_len("Note"@), e.notes, pv.vbar);
    assert(vview(lines@) == a8);
    let diags = diagnostic_messages(entry.get_diagnostics());
    push_blocks(&mut lines, &kind_prefix_exec(p, &p.diagnostics), get_addon_prefix_len("Diagnostics"), &diags, &bar);
    let ghost a9 = a8 + blocks(
        kind_prefix(pv, pv.diagnostics),
        addon_prefix_len("Diagnostics"@),
        e.diagnostics.map_values(|d: lsp_types::Diagnostic| diagnostic_message(d)),
        pv.vbar,
    );
    assert(vview(lines@) == a9);
    let payloads = payload_texts(entry.get_payloads());
    push_blocks(&mut lines, &kind_prefix_exec(p, &p.payload), get_addon_prefix_len("Payload"), &payloads, &bar);
    let ghost a10 = a9 + blocks(
        kind_prefix(pv, pv.payload),
        addon_prefix_len("Payload"@),
        e.payloads.map_values(|v: serde_json::Value| json_text(v)),
        pv.vbar,
    );
    assert(vview(lines@) == a10);
    assert(a10 == body_lines(e, show_id, show_origin, pv));
    close_last_line(&mut lines, p);
    strings_of(&lines)
}

/// `filter` is set and lets the terminal show the ids of an event with entry `e`.
pub open spec fn shows_id(filter: Option<&LogFilter>, e: LogEventEntryView) -> bool {
    match filter {
        Some(f) => config_allows_addon(f@, e.event_id, e.origin.module, AddonFilter::Id),
        None => false,
    }
}

/// `filter` is set and lets the terminal show the origin of an event with entry `e`.
pub open spec fn shows_origin(filter: Option<&LogFilter>, e: LogEventEntryView) -> bool {
    match filter {
        Some(f) => config_allows_addon(f@, e.event_id, e.origin.module, AddonFilter::Origin),
        None => false,
    }
}

/// The lines a log event handler writes to the terminal for a captured event with entry
/// `entry`, where `filter` is the logger's filter, if it has one.
///
/// Addons are shown as the entry holds them: the filter was applied when they were added.
pub fn terminal_lines(entry: &LogEventEntry, filter: Option<&LogFilter>) -> (r: Vec<String>)
    ensures
        exists|p: PaletteView|
            palette_for(p, entry@.event_id.level) && strings_view(r@) == terminal_layout(
                entry@,
                shows_id(filter, entry@),
                shows_origin(filter, entry@),
                p,
            ),
{
    let (show_id, show_origin) = match filter {
        Some(f) => (
            f.show_id(entry.get_event_id(), entry.get_origin()),
            f.show_origin_info(entry.get_event_id(), entry.get_origin()),
        ),
        None => (false, false),
    };
    let p = palette(entry.get_level());
    let r = layout_event(entry, show_id, show_origin, &p);
    assert(palette_for(p@, entry@.event_id.level));
    r
}

/// The start of a line of the console layout with the label `label`: the start of an addon,
/// a space, the label, a colon and a space.
pub open spec fn console_prefix(p: PaletteView, label: Seq<char>) -> Seq<char> {
    p.addon_start + seq![' '] + label + seq![':', ' ']
}

/// The lines of the console layout with the label `label` for the texts `texts`, one line
/// each, every line ended by a line feed.
pub open spec fn console_lines(p: PaletteView, label: Seq<char>, texts: Seq<Seq<char>>) -> Seq<char> {
    texts.map_values(|t: Seq<char>| console_prefix(p, label) + t + seq!['\n']).flatten()
}

/// The text of a related event in the console layout:
/// `id='<level>: <module path>::<identifier>', entry='<entry id>'`.
pub open spec fn console_related(p: PaletteView, r: (LogIdView, u128)) -> Seq<char> {
    seq!['i', 'd', '=', '\''] + level_text(p, r.0.level) + seq![':', ' '] + r.0.module + seq![
        ':',
        ':',
    ] + r.0.identifier + seq!['\'', ',', ' ', 'e', 'n', 't', 'r', 'y', '=', '\'']
        + entry_id_text(r.1) + seq!['\'']
}

/// The text in which the console shows an event with entry `e` in the palette `p`: the level
/// and main message, the event's ids where `show_id` holds, its origin where `show_origin`
/// holds, its infos, debugs, traces, related events, diagnostics and payloads, a line each.
pub open spec fn console_layout(e: LogEventEntryView, show_id: bool, show_origin: bool, p: PaletteView) -> Seq<char> {
    level_text(p, e.event_id.level) + seq![':', ' '] + msg_text(e.msg) + seq!['\n'] + (if show_id {
        console_prefix(p, p.event) + event_text(e.event_id, e.entry_id) + seq!['\n']
    } else {
        Seq::empty()
    }) + (if show_origin {
        console_prefix(p, p.origin) + location_text(e.origin) + seq!['\n']
    } else {
        Seq::empty()
    }) + console_lines(p, p.info, e.infos) + console_lines(p, p.debug, e.debugs) + console_lines(
        p,
        p.trace,
        e.traces,
    ) + console_lines(
        p,
        p.related,
        e.related.map_values(|r: (LogIdView, u128)| console_related(p, r)),
    ) + console_lines(
        p,
        p.diagnostics,
        e.diagnostics.map_values(|d: lsp_types::Diagnostic| diagnostic_message(d)),
    ) + console_lines(p, p.payload, e.payloads.map_values(|v: serde_json::Value| json_text(v)))
}

/// The start of a console line with the label `label` (see [`console_prefix`]).
fn console_prefix_exec(p: &Palette, label: &String) -> (r: Vec<char>)
    ensures
        r@ == console_prefix(p@, label@),
{
    let mut r = chars_of(p.addon_start.as_str());
    r.push(' ');
    append_chars(&mut r, &chars_of(label.as_str()));
    r.push(':');
    r.push(' ');
    assert(r@ =~= console_prefix(p@, label@));
    r
}

/// Appends the console lines of the texts `texts` after `prefix` to `out`.
fn push_console_lines(out: &mut Vec<char>, prefix: &Vec<char>, texts: &Vec<String>)
    ensures
        final(out)@ == old(out)@ + strings_view(texts@).map_values(
            |t: Seq<char>| prefix@ + t + seq!['\n'],
        ).flatten(),
{
    let ghost tv = strings_view(texts@);
    let ghost f = |t: Seq<char>| prefix@ + t + seq!['\n'];
    assert(tv.take(0).map_values(f) =~= Seq::<Seq<char>>::empty());
    assert(out@ =~= old(out)@ + tv.take(0).map_values(f).flatten());
    let mut i: usize = 0;
    while i < texts.len()
        invariant
            i <= texts.len(),
            tv == strings_view(texts@),
            f == (|t: Seq<char>| prefix@ + t + seq!['\n']),
            out@ == old(out)@ + tv.take(i as int).map_values(f).flatten(),
        decreases texts.len() - i,
    {
        let ghost before = out@;
        append_chars(out, prefix);
        append_chars(out, &chars_of(texts[i].as_str()));
        out.push('\n');
        proof {
            assert(texts@[i as int]@ == tv[i as int]);
            assert(out@ =~= before + f(tv[i as int]));
            let xs = tv.take(i as int).map_values(f);
            assert(tv.take(i + 1).map_values(f) =~= xs.push(f(tv[i as int])));
            xs.lemma_flatten_push(f(tv[i as int]));
            assert(out@ =~= old(out)@ + tv.take(i + 1).map_values(f).flatten());
        }
        i = i + 1;
    }
    assert(tv.take(texts.len() as int) =~= tv);
}

/// The console text of each related event of `entry` (see [`console_related`]).
fn console_related_texts(entry: &LogEventEntry, p: &Palette) -> (r: Vec<String>)
    ensures
        strings_view(r@) == entry@.related.map_values(|r: (LogIdView, u128)| console_related(p@, r)),
{
    let related = entry.get_related();
    let ghost rv = entry@.related;
    let ghost f = |r: (LogIdView, u128)| console_related(p@, r);
    let mut out: Vec<String> = Vec::new();
    let mut i: usize = 0;
    while i < related.len()
        invariant
            i <= related.len(),
            rv == entry@.related,
            rv == crate::logging::event_entry::related_view(related@),
            f == (|r: (LogIdView, u128)| console_related(p@, r)),
            strings_view(out@) == rv.take(i as int).map_values(f),
        decreases related.len() - i,
    {
        let ev = related[i];
        assert(rv[i as int] == (ev.event_id@, ev.entry_id));
        let mut t: Vec<char> = vec!['i', 'd', '=', '\''];
        append_chars(&mut t, &chars_of(level_text_exec(p, ev.event_id.get_log_level()).as_str()));
        t.push(':');
        t.push(' ');
        append_chars(&mut t, &chars_of(ev.event_id.get_module_path()));
        t.push(':');
        t.push(':');
        append_chars(&mut t, &chars_of(ev.event_id.get_identifier()));
        let mid: Vec<char> = vec!['\'', ',', ' ', 'e', 'n', 't', 'r', 'y', '=', '\''];
        append_chars(&mut t, &mid);
        append_chars(&mut t, &entry_id_string(ev.entry_id));
        t.push('\'');
        assert(t@ =~= f(rv[i as int]));
        let text = string_of(&t);
        let ghost before = strings_view(out@);
        let ghost tv = text@;
        out.push(text);
        assert(strings_view(out@) =~= before.push(tv));
        assert(rv.take(i + 1).map_values(f) =~= rv.take(i as int).map_values(f).push(f(rv[i as int])));
        i = i + 1;
    }
    assert(rv.take(related.len() as int) =~= rv);
    out
}

/// The text in which the console shows an event with entry `entry` in the palette `p`;
/// `show_id` and `show_origin` tell whether its ids and its origin are shown.
pub fn layout_console(entry: &LogEventEntry, show_id: bool, show_origin: bool, p: &Palette) -> (r: String)
    ensures
        r@ == console_layout(entry@, show_id, show_origin, p@),
{
    let ghost e = entry@;
    let ghost pv = p@;
    let mut out = chars_of(level_text_exec(p, entry.get_level()).as_str());
    out.push(':');
    out.push(' ');
    let msg = match entry.get_msg() {
        Some(m) => chars_of(m.as_str()),
        None => Vec::new(),
    };
    assert(msg@ =~= msg_text(e.msg));
    append_chars(&mut out, &msg);
    out.push('\n');
    let ghost a0 = level_text(pv, e.event_id.level) + seq![':', ' '] + msg_text(e.msg) + seq!['\n'];
    assert(out@ =~= a0);
    let ghost s1 = if show_id {
        console_prefix(pv, pv.event) + event_text(e.event_id, e.entry_id) + seq!['\n']
    } else {
        Seq::empty()
    };
    if show_id {
        append_chars(&mut out, &console_prefix_exec(p, &p.event));
        append_chars(&mut out, &get_event_string(&entry.get_event_id(), entry.get_entry_id()));
        out.push('\n');
    }
    assert(out@ =~= a0 + s1);
    let ghost s2 = if show_origin {
        console_prefix(pv, pv.origin) + location_text(e.origin) + seq!['\n']
    } else {
        Seq::empty()
    };
    if show_origin {
        append_chars(&mut out, &console_prefix_exec(p, &p.origin));
        append_chars(&mut out, &entry.get_origin().location());
        out.push('\n');
    }
    assert(out@ =~= a0 + s1 + s2);
    push_console_lines(&mut out, &console_prefix_exec(p, &p.info), entry.get_infos());
    push_console_lines(&mut out, &console_prefix_exec(p, &p.debug), entry.get_debugs());
    push_console_lines(&mut out, &console_prefix_exec(p, &p.trace), entry.get_traces());
    let related = console_related_texts(entry, p);
    push_console_lines(&mut out, &console_prefix_exec(p, &p.related), &related);
    let diags = diagnostic_messages(entry.get_diagnostics());
    push_console_lines(&mut out, &console_prefix_exec(p, &p.diagnostics), &diags);
    let payloads = payload_texts(entry.get_payloads());
    push_console_lines(&mut out, &console_prefix_exec(p, &p.payload), &payloads);
    assert(out@ =~= console_layout(e, show_id, show_origin, pv));
    string_of(&out)
}

/// The text a console handler writes for a captured event with entry `entry`, where `filter`
/// is the logger's filter, if it has one.
pub fn console_text(entry: &LogEventEntry, filter: Option<&LogFilter>) -> (r: String)
    ensures
        exists|p: PaletteView|
            palette_for(p, entry@.event_id.level) && r@ == console_layout(
                entry@,
                shows_id(filter, entry@),
                shows_origin(filter, entry@),
                p,
            ),
{
    let (show_id, show_origin) = match filter {
        Some(f) => (
            f.show_id(entry.get_event_id(), entry.get_origin()),
            f.show_origin_info(entry.get_event_id(), entry.get_origin()),
        ),
        None => (false, false),
    };
    let p = palette(entry.get_level());
    let r = layout_console(entry, show_id, show_origin, &p);
    assert(palette_for(p@, entry@.event_id.level));
    r
}

/// The number of bytes of the lines `ls` in UTF-8, line ends not counted.
pub open spec fn lines_utf8_len(ls: Seq<Seq<char>>) -> nat
    decreases ls.len(),
{
    if ls.len() == 0 {
        0
    } else {
        lines_utf8_len(ls.drop_last()) + utf8_len(ls.last())
    }
}

/// `n` where it fits in a `usize`, `usize::MAX` otherwise.
pub open spec fn saturated(n: nat) -> usize {
    if n <= usize::MAX {
        n as usize
    } else {
        usize::MAX
    }
}

/// The number of bytes of `c` in UTF-8 (see [`utf8_width`]).
fn char_width(c: char) -> (r: usize)
    ensures
        r == utf8_width(c),
{
    if c <= '\u{7f}' {
        1
    } else if c <= '\u{7ff}' {
        2
    } else if c <= '\u{ffff}' {
        3
    } else {
        4
    }
}

/// The content length of the lines `lines`: the number of their bytes in UTF-8, line ends
/// not counted, as a write buffer for them is sized; `usize::MAX` where it does not fit.
pub fn content_len(lines: &Vec<String>) -> (r: usize)
    ensures
        r == saturated(lines_utf8_len(strings_view(lines@))),
{
    let ghost lv = strings_view(lines@);
    let mut n: usize = 0;
    let mut i: usize = 0;
    assert(lv.take(0) =~= Seq::<Seq<char>>::empty());
    while i < lines.len()
        invariant
            i <= lines.len(),
            lv == strings_view(lines@),
            n == saturated(lines_utf8_len(lv.take(i as int))),
        decreases lines.len() - i,
    {
        let v = chars_of(lines[i].as_str());
        assert(v@ == lv[i as int]);
        let ghost base = lines_utf8_len(lv.take(i as int));
        let mut j: usize = 0;
        while j < v.len()
            invariant
                j <= v.len(),
                n == saturated(base + utf8_len(v@.take(j as int))),
            decreases v.len() - j,
        {
            assert(v@.take(j + 1).drop_last() =~= v@.take(j as int));
            let w = char_width(v[j]);
            n = if n > usize::MAX - w { usize::MAX } else { n + w };
            j = j + 1;
        }
        assert(v@.take(v.len() as int) =~= v@);
        assert(lv.take(i + 1).drop_last() =~= lv.take(i as int));
        i = i + 1;
    }
    assert(lv.take(lines.len() as int) =~= lv);
    n
}

/// The bytes of two pieces of text add up.
pub proof fn lemma_utf8_len_concat(a: Seq<char>, b: Seq<char>)
    ensures
        utf8_len(a + b) == utf8_len(a) + utf8_len(b),
    decreases b.len(),
{
    if b.len() == 0 {
        assert(a + b =~= a);
    } else {
        assert((a + b).drop_last() =~= a + b.drop_last());
        lemma_utf8_len_concat(a, b.drop_last());
    }
}

/// Replacing the first occurrence of a pattern by text of as many bytes keeps the number of
/// bytes.
pub proof fn lemma_replace_first_len(s: Seq<char>, pat: Seq<char>, with: Seq<char>)
    requires
        utf8_len(pat) == utf8_len(with),
    ensures
        utf8_len(replace_first(s, pat, with)) == utf8_len(s),
{
    let i = crate::layout::first_occurrence_from(s, pat, 0);
    if i >= 0 {
        lemma_first_occurrence_found(s, pat, 0);
        let head = s.take(i);
        let tail = s.skip(i + pat.len());
        assert(s =~= head + pat + tail);
        lemma_utf8_len_concat(head, pat);
        lemma_utf8_len_concat(head + pat, tail);
        lemma_utf8_len_concat(head, with);
        lemma_utf8_len_concat(head + with, tail);
    }
}

/// A first occurrence found from `i` on is an occurrence.
proof fn lemma_first_occurrence_found(s: Seq<char>, pat: Seq<char>, i: int)
    requires
        crate::layout::first_occurrence_from(s, pat, i) >= 0,
    ensures
        crate::layout::occurs_at(s, pat, crate::layout::first_occurrence_from(s, pat, i)),
    decreases s.len() + 1 - i,
{
    if i >= 0 && i + pat.len() <= s.len() && !crate::layout::occurs_at(s, pat, i) {
        lemma_first_occurrence_found(s, pat, i + 1);
    }
}

/// Closing the last line keeps the content length where the bottom pieces of the tree have as
/// many bytes as those they replace, as the drawn ones do: the content length of the lines
/// written is that of the lines before the last one was closed.
pub proof fn lemma_close_keeps_content_len(lines: Seq<Seq<char>>, p: PaletteView)
    requires
        utf8_len(p.lcross) == utf8_len(p.lbot),
        utf8_len(p.vbar) == utf8_len(p.mbot),
    ensures
        lines_utf8_len(close_lines(lines, p)) == lines_utf8_len(lines),
{
    if lines.len() > 1 {
        let last = lines.last();
        lemma_replace_first_len(last, p.lcross, p.lbot);
        lemma_replace_first_len(replace_first(last, p.lcross, p.lbot), p.vbar, p.mbot);
        let closed = close_lines(lines, p);
        assert(closed.drop_last() =~= lines.drop_last());
    }
}

} // verus!
