use termhelp::legend::{
    join_justify_between, justify_with_widths, legend_layout, legend_parts, paint_item,
    paint_legend, paint_piece, place_legend, visible_width, LegendLayout, LegendPart, LegendTone,
};
use termhelp::pager::Area;
use termimad::crossterm::style::Color;

fn strings(items: &[&str]) -> Vec<String> {
    items.iter().map(|s| s.to_string()).collect()
}

fn screen(width: u16, height: u16) -> Area {
    Area { left: 0, top: 0, width, height }
}

fn plain_text(item: &[LegendPart]) -> String {
    item.iter().map(|p| p.text.as_str()).collect()
}

#[test]
fn visible_width_of_plain_text() {
    assert_eq!(visible_width(""), 0);
    assert_eq!(visible_width("hello"), 5);
}

#[test]
fn visible_width_leaves_escape_sequences_out() {
    assert_eq!(visible_width("\x1b[32mfoo\x1b[m bar"), 7);
    assert_eq!(visible_width("\x1b[1m\x1b[38;5;208mPgUp\x1b[0m"), 4);
}

#[test]
fn visible_width_counts_columns_not_characters() {
    assert_eq!(visible_width("日本"), 4);
    assert_eq!(visible_width("↑"), 1);
    assert_eq!(visible_width("e\u{301}"), 1);
}

#[test]
fn justify_spreads_the_spare_columns_and_gives_the_first_gaps_the_rest() {
    let line = join_justify_between(&strings(&["ab", "cd", "e"]), 10);
    assert_eq!(line, "ab   cd  e");
}

#[test]
fn justify_with_even_gaps() {
    let line = join_justify_between(&strings(&["a", "b", "c"]), 7);
    assert_eq!(line, "a  b  c");
}

#[test]
fn justify_with_one_spare_column() {
    let line = join_justify_between(&strings(&["ab", "cd", "ef"]), 7);
    assert_eq!(line, "ab cdef");
}

#[test]
fn justify_joins_with_one_space_when_the_items_fill_the_width() {
    assert_eq!(join_justify_between(&strings(&["ab", "cd"]), 4), "ab cd");
    assert_eq!(join_justify_between(&strings(&["ab", "cd"]), 3), "ab cd");
    assert_eq!(join_justify_between(&strings(&["ab", "cd"]), 0), "ab cd");
}

#[test]
fn justify_of_one_item_or_none() {
    assert_eq!(join_justify_between(&strings(&["only"]), 20), "only");
    assert_eq!(join_justify_between(&strings(&[]), 20), "");
}

#[test]
fn justify_measures_what_is_seen() {
    let items = strings(&["\x1b[31mab\x1b[0m", "cd"]);
    let line = join_justify_between(&items, 8);
    assert_eq!(line, "\x1b[31mab\x1b[0m    cd");
    assert_eq!(visible_width(&line), 8);
}

#[test]
fn justified_line_takes_the_whole_width() {
    let items = strings(&["Title", "up / down", "PgUp / Dn", "Mouse", "q / Esc"]);
    for width in 40u16..90 {
        let line = join_justify_between(&items, width);
        assert_eq!(line.chars().count(), width as usize);
        let gaps: Vec<usize> = {
            let mut rest = line.as_str();
            let mut found = Vec::new();
            for (i, item) in items.iter().enumerate() {
                rest = &rest[item.len()..];
                if i + 1 < items.len() {
                    let pad = rest.len() - rest.trim_start_matches(' ').len();
                    found.push(pad);
                    rest = &rest[pad..];
                }
            }
            found
        };
        let total: usize = gaps.iter().sum();
        assert_eq!(total, width as usize - 35);
        let least = *gaps.iter().min().unwrap();
        let most = *gaps.iter().max().unwrap();
        assert!(most - least <= 1);
        assert!(gaps.windows(2).all(|w| w[0] >= w[1]));
    }
}

#[test]
fn justify_with_given_widths() {
    let items = strings(&["ab", "cd", "e"]);
    assert_eq!(justify_with_widths(&items, &[2, 2, 1], 10), "ab   cd  e");
    assert_eq!(justify_with_widths(&items, &[1, 1, 1], 10), "ab    cd   e");
    assert_eq!(justify_with_widths(&items, &[4, 4, 2], 10), "ab cd e");
    assert_eq!(justify_with_widths(&items, &[4, 4, 1], 10), "ab cde");
}

#[test]
fn justify_with_widths_beyond_any_screen() {
    let items = strings(&["ab", "cd"]);
    assert_eq!(justify_with_widths(&items, &[usize::MAX, usize::MAX], 65535), "ab cd");
    assert_eq!(justify_with_widths(&items, &[65534, 1], 65535), "ab cd");
    assert_eq!(justify_with_widths(&items, &[65533, 1], 65535), "ab cd");
    assert_eq!(justify_with_widths(&items, &[65530, 1], 65535), "ab    cd");
}

#[test]
fn layout_is_stacked_only_on_wide_screens() {
    assert_eq!(legend_layout(&screen(121, 40)), LegendLayout::Stacked);
    assert_eq!(legend_layout(&screen(120, 40)), LegendLayout::Line);
    assert_eq!(legend_layout(&screen(0, 0)), LegendLayout::Line);
    assert_eq!(legend_layout(&screen(u16::MAX, 1)), LegendLayout::Stacked);
}

#[test]
fn legend_says_title_and_four_hints() {
    let items = legend_parts("git", LegendLayout::Line);
    let said: Vec<String> = items.iter().map(|i| plain_text(i)).collect();
    assert_eq!(said, strings(&["git Help", "↑ / ↓ Scroll", "PgUp / Dn Page", "Mouse Scroll", "q / Esc Quit"]));
    let items = legend_parts("git", LegendLayout::Stacked);
    let said: Vec<String> = items.iter().map(|i| plain_text(i)).collect();
    assert_eq!(said, strings(&["git Help", "↑ / ↓ Scroll", "PgUp/Dn Page", "Mouse Scroll", "q / Esc Quit"]));
}

#[test]
fn legend_tones() {
    let items = legend_parts("git", LegendLayout::Line);
    let tones: Vec<LegendTone> = items[4].iter().map(|p| p.tone).collect();
    assert_eq!(
        tones,
        vec![
            LegendTone::Alert,
            LegendTone::Plain,
            LegendTone::Muted,
            LegendTone::Plain,
            LegendTone::Alert,
            LegendTone::Plain,
            LegendTone::Muted
        ]
    );
    assert_eq!(items[0].len(), 1);
    assert_eq!(items[0][0].tone, LegendTone::Accent);
    let tones: Vec<LegendTone> = items[3].iter().map(|p| p.tone).collect();
    assert_eq!(tones, vec![LegendTone::Accent, LegendTone::Plain, LegendTone::Muted]);
}

#[test]
fn painting_keeps_what_is_seen() {
    for layout in [LegendLayout::Line, LegendLayout::Stacked] {
        let items = legend_parts("git", layout);
        let styled = paint_legend(&items, Color::Rgb { r: 255, g: 128, b: 0 });
        assert_eq!(styled.len(), 5);
        for (item, text) in items.iter().zip(styled.iter()) {
            let plain = plain_text(item);
            assert_eq!(strip_ansi_escapes::strip_str(text), plain);
            assert_eq!(visible_width(text), plain.chars().count());
        }
    }
}

#[test]
fn every_painted_piece_holds_its_text() {
    let accent = Color::Rgb { r: 10, g: 20, b: 30 };
    for tone in [LegendTone::Accent, LegendTone::Muted, LegendTone::Alert, LegendTone::Plain] {
        for text in ["PgUp", "↑", "", "q / Esc"] {
            let piece = LegendPart { text: text.to_string(), tone };
            let styled = paint_piece(&piece, accent);
            assert!(styled.contains(text));
            assert_eq!(strip_ansi_escapes::strip_str(&styled), text);
            if tone == LegendTone::Plain {
                assert_eq!(styled, text);
            }
        }
    }
}

#[test]
fn painted_item_is_its_painted_pieces_in_order() {
    let accent = Color::Green;
    for item in legend_parts("git", LegendLayout::Line) {
        let pieces: String = item.iter().map(|p| paint_piece(p, accent)).collect();
        assert_eq!(paint_item(&item, accent), pieces);
    }
}

#[test]
fn painting_unstyled_pieces_gives_their_text() {
    let item = vec![
        LegendPart { text: "a".to_string(), tone: LegendTone::Plain },
        LegendPart { text: " b".to_string(), tone: LegendTone::Plain },
    ];
    assert_eq!(paint_item(&item, Color::Blue), "a b");
    assert_eq!(paint_item(&Vec::new(), Color::Blue), "");
}

#[test]
fn stacked_legend_takes_one_row_per_item() {
    let items = strings(&["a", "b", "c"]);
    let placed = place_legend(&items, &screen(200, 50));
    assert_eq!(placed.len(), 3);
    for (i, p) in placed.iter().enumerate() {
        assert_eq!(p.column, 0);
        assert_eq!(p.row, i as u16);
        assert_eq!(p.text, items[i]);
    }
}

#[test]
fn line_legend_is_justified_on_the_last_row() {
    let items = strings(&["ab", "cd", "e"]);
    let placed = place_legend(&items, &screen(10, 24));
    assert_eq!(placed.len(), 1);
    assert_eq!(placed[0].column, 0);
    assert_eq!(placed[0].row, 23);
    assert_eq!(placed[0].text, "ab   cd  e");
}
