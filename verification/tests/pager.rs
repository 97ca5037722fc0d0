use termhelp::pager::{
    fits_screen, pager_step, view_area, Area, PagerAction, PagerEvent, PagerKey, PagerPhase,
    ScrollState,
};
use termhelp::text::count_lines;

fn running() -> ScrollState {
    ScrollState::start(100, 30)
}

#[test]
fn view_on_a_wide_screen_is_centred_and_keeps_all_rows() {
    assert_eq!(view_area(200, 50), Area { left: 60, top: 0, width: 80, height: 50 });
    assert_eq!(view_area(121, 50), Area { left: 20, top: 0, width: 80, height: 50 });
}

#[test]
fn view_on_a_narrow_screen_gives_up_its_last_row() {
    assert_eq!(view_area(120, 40), Area { left: 20, top: 0, width: 80, height: 39 });
    assert_eq!(view_area(101, 40), Area { left: 10, top: 0, width: 80, height: 39 });
    assert_eq!(view_area(81, 1), Area { left: 0, top: 0, width: 80, height: 0 });
}

#[test]
fn view_on_a_screen_no_wider_than_the_text_is_not_padded() {
    assert_eq!(view_area(80, 24), Area { left: 0, top: 0, width: 80, height: 23 });
    assert_eq!(view_area(60, 10), Area { left: 0, top: 0, width: 60, height: 9 });
    assert_eq!(view_area(0, 1), Area { left: 0, top: 0, width: 0, height: 0 });
}

#[test]
fn view_on_the_largest_screen() {
    assert_eq!(
        view_area(u16::MAX, u16::MAX),
        Area { left: 32727, top: 0, width: 80, height: u16::MAX }
    );
}

#[test]
fn start_is_running_on_the_whole_screen() {
    let state = ScrollState::start(100, 30);
    assert_eq!(state.phase, PagerPhase::Running);
    assert_eq!(state.screen, Area { left: 0, top: 0, width: 100, height: 30 });
    assert!(state.is_running());
}

#[test]
fn arrow_keys_scroll_by_line() {
    assert_eq!(pager_step(running(), PagerEvent::Key(PagerKey::Up)), (running(), PagerAction::ScrollLines(-1)));
    assert_eq!(pager_step(running(), PagerEvent::Key(PagerKey::Down)), (running(), PagerAction::ScrollLines(1)));
}

#[test]
fn letter_keys_scroll_by_line() {
    assert_eq!(
        pager_step(running(), PagerEvent::Key(PagerKey::Char('k'))),
        (running(), PagerAction::ScrollLines(-1))
    );
    assert_eq!(
        pager_step(running(), PagerEvent::Key(PagerKey::Char('j'))),
        (running(), PagerAction::ScrollLines(1))
    );
}

#[test]
fn page_keys_scroll_by_page() {
    assert_eq!(
        pager_step(running(), PagerEvent::Key(PagerKey::PageUp)),
        (running(), PagerAction::ScrollPages(-1))
    );
    assert_eq!(
        pager_step(running(), PagerEvent::Key(PagerKey::PageDown)),
        (running(), PagerAction::ScrollPages(1))
    );
}

#[test]
fn quit_keys_exit() {
    for key in [PagerKey::Esc, PagerKey::Char('q')] {
        let (state, action) = pager_step(running(), PagerEvent::Key(key));
        assert_eq!(action, PagerAction::Quit);
        assert_eq!(state.phase, PagerPhase::Exiting);
        assert_eq!(state.screen, running().screen);
        assert!(!state.is_running());
    }
}

#[test]
fn other_keys_and_events_do_nothing() {
    for event in [
        PagerEvent::Key(PagerKey::Other),
        PagerEvent::Key(PagerKey::Char('x')),
        PagerEvent::Key(PagerKey::Char('Q')),
        PagerEvent::Key(PagerKey::Char('J')),
        PagerEvent::Other,
    ] {
        assert_eq!(pager_step(running(), event), (running(), PagerAction::Nothing));
    }
}

#[test]
fn resize_takes_the_new_screen_and_lays_the_view_out_again() {
    let (state, action) = pager_step(running(), PagerEvent::Resize { width: 200, height: 50 });
    assert_eq!(state.phase, PagerPhase::Running);
    assert_eq!(state.screen, Area { left: 0, top: 0, width: 200, height: 50 });
    assert_eq!(action, PagerAction::Relayout { view: Area { left: 60, top: 0, width: 80, height: 50 } });
    let (state, action) = pager_step(state, PagerEvent::Resize { width: 90, height: 20 });
    assert_eq!(state.screen, Area { left: 0, top: 0, width: 90, height: 20 });
    assert_eq!(action, PagerAction::Relayout { view: Area { left: 5, top: 0, width: 80, height: 19 } });
}

#[test]
fn an_exiting_view_stays_so() {
    let (exiting, _) = pager_step(running(), PagerEvent::Key(PagerKey::Esc));
    for event in [
        PagerEvent::Key(PagerKey::Up),
        PagerEvent::Key(PagerKey::Char('q')),
        PagerEvent::Resize { width: 10, height: 10 },
        PagerEvent::Other,
    ] {
        assert_eq!(pager_step(exiting, event), (exiting, PagerAction::Nothing));
    }
}

#[test]
fn lines_are_counted_as_the_standard_library_counts_them() {
    for text in [
        "",
        "a",
        "a\n",
        "a\nb",
        "a\nb\n",
        "\n",
        "\n\n",
        "a\r\nb\r\n",
        "a\rb",
        "a\n\nb",
        "# t\n**Usage:** `x`\n",
        "ends with cr\r",
        "日本\n語",
    ] {
        assert_eq!(count_lines(text), text.lines().count(), "{text:?}");
    }
}

#[test]
fn document_longer_than_the_screen_scrolls() {
    let doc = "1\n2\n3\n4\n5\n";
    assert!(!fits_screen(doc, 4));
    assert!(!fits_screen(doc, 0));
    assert!(!fits_screen("1\n2\n3\n4\n5", 4));
}

#[test]
fn document_that_fits_is_printed_once() {
    let doc = "1\n2\n3\n4\n5\n";
    assert!(fits_screen(doc, 5));
    assert!(fits_screen(doc, 6));
    assert!(fits_screen(doc, u16::MAX));
    assert!(fits_screen("", 0));
}
