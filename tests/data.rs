use std::cmp::Ordering;

use zellij_utils::{
    client_id_to_colors, single_client_color, Action, CharOrArrow, CopyDestination, Direction,
    Event, EventType, InputMode, Key, ModeInfo, Mouse, Palette, PaletteColor, PaletteSource,
    PluginCapabilities, PluginTag, Style, TabInfo, ThemeHue,
};

fn sample_palette() -> Palette {
    let mut p = Palette::default();
    p.black = PaletteColor::EightBit(16);
    p.green = PaletteColor::Rgb((0, 200, 0));
    p.magenta = PaletteColor::EightBit(5);
    p.blue = PaletteColor::EightBit(4);
    p.purple = PaletteColor::Rgb((128, 0, 128));
    p.yellow = PaletteColor::EightBit(3);
    p.cyan = PaletteColor::EightBit(6);
    p.gold = PaletteColor::Rgb((255, 215, 0));
    p.red = PaletteColor::EightBit(1);
    p.silver = PaletteColor::Rgb((192, 192, 192));
    p.pink = PaletteColor::Rgb((255, 192, 203));
    p.brown = PaletteColor::Rgb((165, 42, 42));
    p
}

#[test]
fn key_labels_match_table() {
    assert_eq!(Key::Char('\n').to_string(), "ENTER");
    assert_eq!(Key::Char('\t').to_string(), "TAB");
    assert_eq!(Key::Char(' ').to_string(), "SPACE");
    assert_eq!(Key::Char('x').to_string(), "x");
    assert_eq!(Key::F(5).to_string(), "F5");
    assert_eq!(Key::Ctrl('a').to_string(), "Ctrl+a");
    assert_eq!(Key::Ctrl('\n').to_string(), "Ctrl+ENTER");
    assert_eq!(Key::Alt(CharOrArrow::Direction(Direction::Up)).to_string(), "Alt+↑");
    assert_eq!(Key::Alt(CharOrArrow::Char(' ')).to_string(), "Alt+SPACE");
    assert_eq!(Key::Backspace.to_string(), "BACKSPACE");
    assert_eq!(Key::Left.to_string(), "←");
    assert_eq!(Key::Right.to_string(), "→");
    assert_eq!(Key::Up.to_string(), "↑");
    assert_eq!(Key::Down.to_string(), "↓");
    assert_eq!(Key::Home.to_string(), "HOME");
    assert_eq!(Key::End.to_string(), "END");
    assert_eq!(Key::PageUp.to_string(), "PgUp");
    assert_eq!(Key::PageDown.to_string(), "PgDn");
    assert_eq!(Key::BackTab.to_string(), "TAB");
    assert_eq!(Key::Delete.to_string(), "DEL");
    assert_eq!(Key::Insert.to_string(), "INS");
    assert_eq!(Key::Null.to_string(), "NULL");
    assert_eq!(Key::Esc.to_string(), "ESC");
}

#[test]
fn function_key_labels_at_bounds() {
    assert_eq!(Key::F(0).to_string(), "F0");
    assert_eq!(Key::F(9).to_string(), "F9");
    assert_eq!(Key::F(10).to_string(), "F10");
    assert_eq!(Key::F(99).to_string(), "F99");
    assert_eq!(Key::F(100).to_string(), "F100");
    assert_eq!(Key::F(255).to_string(), "F255");
}

#[test]
fn direction_and_char_or_arrow_labels() {
    assert_eq!(Direction::Left.to_string(), "←");
    assert_eq!(Direction::Down.to_string(), "↓");
    assert_eq!(CharOrArrow::Char('\t').to_string(), "TAB");
    assert_eq!(CharOrArrow::Direction(Direction::Right).to_string(), "→");
}

#[test]
fn key_order_follows_declaration() {
    assert!(Key::PageDown < Key::PageUp);
    assert!(Key::Insert < Key::F(0));
    assert!(Key::F(255) < Key::Char('a'));
    assert!(Key::Char('z') < Key::Alt(CharOrArrow::Char('a')));
    assert!(Key::Ctrl('a') < Key::BackTab);
    assert!(Key::Null < Key::Esc);
    assert!(Direction::Left < Direction::Down);
}

#[test]
fn client_colors_by_id() {
    let p = sample_palette();
    assert_eq!(client_id_to_colors(0, p), None);
    assert_eq!(client_id_to_colors(1, p), Some((p.magenta, p.black)));
    assert_eq!(client_id_to_colors(2, p), Some((p.blue, p.black)));
    assert_eq!(client_id_to_colors(3, p), Some((p.purple, p.black)));
    assert_eq!(client_id_to_colors(4, p), Some((p.yellow, p.black)));
    assert_eq!(client_id_to_colors(5, p), Some((p.cyan, p.black)));
    assert_eq!(client_id_to_colors(6, p), Some((p.gold, p.black)));
    assert_eq!(client_id_to_colors(7, p), Some((p.red, p.black)));
    assert_eq!(client_id_to_colors(8, p), Some((p.silver, p.black)));
    assert_eq!(client_id_to_colors(9, p), Some((p.pink, p.black)));
    assert_eq!(client_id_to_colors(10, p), Some((p.brown, p.black)));
    assert_eq!(client_id_to_colors(11, p), None);
    assert_eq!(client_id_to_colors(u16::MAX, p), None);
}

#[test]
fn single_client_is_green_on_black() {
    let p = sample_palette();
    assert_eq!(single_client_color(p), (PaletteColor::Rgb((0, 200, 0)), PaletteColor::EightBit(16)));
    let d = Palette::default();
    assert_eq!(single_client_color(d), (d.green, d.black));
}

#[test]
fn input_mode_aliases_parse() {
    let cases = [
        ("normal", InputMode::Normal),
        ("locked", InputMode::Locked),
        ("resize", InputMode::Resize),
        ("pane", InputMode::Pane),
        ("tab", InputMode::Tab),
        ("scroll", InputMode::Scroll),
        ("entersearch", InputMode::EnterSearch),
        ("search", InputMode::Search),
        ("renametab", InputMode::RenameTab),
        ("renamepane", InputMode::RenamePane),
        ("session", InputMode::Session),
        ("move", InputMode::Move),
        ("prompt", InputMode::Prompt),
        ("tmux", InputMode::Tmux),
    ];
    for (s, m) in cases {
        assert_eq!(InputMode::from_str(s), Ok(m));
        assert_eq!(m.alias(), s);
        assert_eq!(s.parse::<InputMode>(), Ok(m));
    }
}

#[test]
fn input_mode_rejects_other_strings() {
    for s in ["Normal", "NORMAL", "", "normal ", "norma", "Tmux", "enter_search"] {
        let e = InputMode::from_str(s).unwrap_err();
        assert_eq!(e.input, s);
    }
}

#[test]
fn input_mode_default_is_normal() {
    assert_eq!(InputMode::default(), InputMode::Normal);
}

fn binds(code: u32) -> Vec<(Key, Vec<Action>)> {
    vec![(Key::Char('a'), vec![Action { code }, Action { code: code + 1 }]), (Key::Esc, vec![])]
}

#[test]
fn keybinds_lookup_first_match_and_absent() {
    let mut info = ModeInfo::default();
    info.keybinds = vec![
        (InputMode::Pane, binds(10)),
        (InputMode::Normal, binds(20)),
        (InputMode::Pane, binds(30)),
    ];
    assert_eq!(info.get_keybinds_for_mode(InputMode::Pane), binds(10));
    assert_eq!(info.get_keybinds_for_mode(InputMode::Normal), binds(20));
    assert_eq!(info.get_keybinds_for_mode(InputMode::Tmux), vec![]);
    assert_eq!(info.get_mode_keybinds(), binds(20));
    info.mode = InputMode::Locked;
    assert_eq!(info.get_mode_keybinds(), vec![]);
}

#[test]
fn keybinds_lookup_on_empty_list() {
    let info = ModeInfo::default();
    assert!(info.get_keybinds_for_mode(InputMode::Normal).is_empty());
}

#[test]
fn event_type_names_its_variant() {
    let events = vec![
        (Event::ModeUpdate(ModeInfo::default()), EventType::ModeUpdate, "ModeUpdate"),
        (Event::TabUpdate(vec![TabInfo::default()]), EventType::TabUpdate, "TabUpdate"),
        (Event::Key(Key::F(255)), EventType::Key, "Key"),
        (Event::Mouse(Mouse::LeftClick(-3, 7)), EventType::Mouse, "Mouse"),
        (Event::Timer(1.5f64.to_bits()), EventType::Timer, "Timer"),
        (Event::CopyToClipboard(CopyDestination::System), EventType::CopyToClipboard, "CopyToClipboard"),
        (Event::SystemClipboardFailure, EventType::SystemClipboardFailure, "SystemClipboardFailure"),
        (Event::InputReceived, EventType::InputReceived, "InputReceived"),
        (Event::Visible(true), EventType::Visible, "Visible"),
    ];
    for (e, t, name) in events {
        assert_eq!(e.event_type(), t);
        assert_eq!(e.to_string(), name);
        assert_eq!(t.name(), name);
        assert_eq!(EventType::from_str(name), Ok(t));
        assert_eq!(EventType::from_str(&t.to_string()), Ok(t));
    }
}

#[test]
fn event_type_rejects_unknown_names() {
    for s in ["key", "KEY", "", "Keys", "Tick"] {
        let e = EventType::from_str(s).unwrap_err();
        assert_eq!(e.input, s);
    }
}

#[test]
fn defaults_need_no_input() {
    assert_eq!(PaletteColor::default(), PaletteColor::EightBit(0));
    assert_eq!(ThemeHue::default(), ThemeHue::Dark);
    assert_eq!(PaletteSource::default(), PaletteSource::Default);
    let p = Palette::default();
    assert_eq!(p.source, PaletteSource::Default);
    assert_eq!(p.theme_hue, ThemeHue::Dark);
    assert_eq!(p.fg, PaletteColor::EightBit(0));
    assert_eq!(p.brown, PaletteColor::EightBit(0));
    let s = Style::default();
    assert_eq!(s.colors, p);
    assert!(!s.rounded_corners);
    assert!(PluginCapabilities::default().arrow_fonts);
    let m = ModeInfo::default();
    assert_eq!(m.mode, InputMode::Normal);
    assert!(m.keybinds.is_empty());
    assert_eq!(m.style, s);
    assert_eq!(m.capabilities, PluginCapabilities { arrow_fonts: true });
    assert_eq!(m.session_name, None);
    let t = TabInfo::default();
    assert_eq!(t.position, 0);
    assert!(t.name.is_empty() && t.other_focused_clients.is_empty());
}

#[test]
fn palette_color_equality() {
    assert_eq!(PaletteColor::Rgb((1, 2, 3)), PaletteColor::Rgb((1, 2, 3)));
    assert_ne!(PaletteColor::Rgb((1, 2, 3)), PaletteColor::Rgb((1, 2, 4)));
    assert_ne!(PaletteColor::EightBit(1), PaletteColor::Rgb((1, 0, 0)));
    let mut p = Palette::default();
    assert_eq!(p, Palette::default());
    p.pink = PaletteColor::EightBit(9);
    assert_ne!(p, Palette::default());
}

#[test]
fn plugin_tag_wraps_a_string() {
    let tag = PluginTag::new("zellij:tab-bar");
    assert_eq!(tag.as_str(), "zellij:tab-bar");
    assert_eq!(tag.to_string(), "zellij:tab-bar");
    let s: String = tag.clone().into();
    assert_eq!(s, "zellij:tab-bar");
    assert_eq!(tag.into_string(), "zellij:tab-bar");
    assert_eq!(PluginTag::default().as_str(), "");
}

#[test]
fn key_compare_by_variant_then_payload() {
    assert_eq!(Key::F(3).compare(&Key::F(12)), Ordering::Less);
    assert_eq!(Key::F(12).compare(&Key::F(12)), Ordering::Equal);
    assert_eq!(Key::Char('b').compare(&Key::Char('a')), Ordering::Greater);
    assert_eq!(Key::Esc.compare(&Key::PageDown), Ordering::Greater);
    assert_eq!(
        Key::Alt(CharOrArrow::Char('z')).compare(&Key::Alt(CharOrArrow::Direction(Direction::Left))),
        Ordering::Less
    );
    assert_eq!(
        Key::Alt(CharOrArrow::Direction(Direction::Down))
            .compare(&Key::Alt(CharOrArrow::Direction(Direction::Up))),
        Ordering::Greater
    );
    assert_eq!(Key::Ctrl('a').cmp(&Key::Ctrl('b')), Ordering::Less);
    let mut keys = vec![Key::Esc, Key::Char('a'), Key::F(1), Key::PageDown, Key::Ctrl('c')];
    keys.sort();
    assert_eq!(keys, vec![Key::PageDown, Key::F(1), Key::Char('a'), Key::Ctrl('c'), Key::Esc]);
}
