use windows_record::capture::dxgi::{
    get_adapter_for_window, setup_dxgi_duplication_for_window, AdapterChoice,
};
use windows_record::capture::monitor::{
    get_primary_monitor_resolution, get_window_monitor_resolution,
};
use windows_record::capture::tracker::WindowTracker;
use windows_record::capture::window::{
    find_windows_by_text, get_window_by_exact_string, get_window_by_string, get_window_by_text,
    get_window_title, is_window_valid, list_all_visible_windows, title_buffer_size, SearchContext,
    TextLength, WindowCandidate, WindowHandle, WindowSearchOptions,
};
use windows_record::types::{Duration, Rect};

fn window(raw: isize, visible: bool, title: &str) -> WindowCandidate {
    WindowCandidate { handle: WindowHandle::new(raw), visible, title: Ok(title.to_string()) }
}

fn desktop() -> Vec<WindowCandidate> {
    vec![
        window(1, false, "Notepad hidden"),
        window(2, true, "README - Notepad"),
        WindowCandidate { handle: WindowHandle::new(3), visible: true, title: Err(-1) },
        window(4, true, "notepad"),
        window(5, true, "Notepad"),
        window(6, true, ""),
        window(7, true, "Notepad"),
    ]
}

fn raws(found: Vec<WindowHandle>) -> Vec<isize> {
    found.iter().map(|w| w.as_raw()).collect()
}

#[test]
fn first_window_whose_title_holds_the_text() {
    assert_eq!(get_window_by_text("NOTEPAD", &desktop()), Some(WindowHandle::new(2)));
    assert_eq!(get_window_by_string("notepad", &desktop()), Some(WindowHandle::new(2)));
    assert_eq!(get_window_by_text("chrome", &desktop()), None);
    assert_eq!(get_window_by_text("", &desktop()), Some(WindowHandle::new(2)));
}

#[test]
fn exact_titles_match_letter_for_letter() {
    assert_eq!(get_window_by_exact_string("Notepad", &desktop()), Some(WindowHandle::new(5)));
    assert_eq!(get_window_by_exact_string("NOTEPAD", &desktop()), None);
    assert_eq!(get_window_by_exact_string("Note", &desktop()), None);
}

#[test]
fn searches_stop_at_their_limit() {
    let all = WindowSearchOptions { max_results: None, ..WindowSearchOptions::default() };
    assert_eq!(raws(find_windows_by_text("notepad", all, &desktop())), vec![2, 4, 5, 7]);
    let two = WindowSearchOptions { max_results: Some(2), ..all };
    assert_eq!(raws(find_windows_by_text("notepad", two, &desktop())), vec![2, 4]);
    let none = WindowSearchOptions { max_results: Some(0), ..all };
    assert_eq!(raws(find_windows_by_text("notepad", none, &desktop())), Vec::<isize>::new());
    let cased = WindowSearchOptions { case_sensitive: true, ..all };
    assert_eq!(raws(find_windows_by_text("notepad", cased, &desktop())), vec![4]);
    let exact = WindowSearchOptions { exact_match: true, ..all };
    assert_eq!(raws(find_windows_by_text("NotePad", exact, &desktop())), vec![4, 5, 7]);
}

#[test]
fn lower_case_follows_unicode() {
    let windows = vec![window(1, true, "STRASSE \u{00c4}")];
    assert_eq!(get_window_by_text("strasse \u{00e4}", &windows), Some(WindowHandle::new(1)));
}

#[test]
fn a_search_tells_when_to_stop() {
    let mut context = SearchContext::new("a", WindowSearchOptions::default());
    assert!(!context.should_stop());
    assert!(context.visit(&window(1, true, "b")));
    assert!(!context.visit(&window(2, true, "A")));
    assert!(context.should_stop());
    assert!(!context.visit(&window(3, true, "a")));
    assert_eq!(raws(context.results), vec![2]);
}

#[test]
fn visible_titles_are_listed_once() {
    assert_eq!(
        list_all_visible_windows(&desktop()),
        vec!["README - Notepad".to_string(), "notepad".to_string(), "Notepad".to_string()]
    );
}

#[test]
fn validity_needs_existence_and_visibility() {
    assert!(is_window_valid(true, true));
    assert!(!is_window_valid(true, false));
    assert!(!is_window_valid(false, true));
    assert!(WindowHandle::new(1).is_valid_and_visible(true, true));
}

#[test]
fn titles_are_read_in_two_steps() {
    let fine = |length| TextLength { length, error: 0 };
    let failed = TextLength { length: 0, error: -7 };
    assert_eq!(title_buffer_size(fine(3)), Ok(Some(4)));
    assert_eq!(title_buffer_size(fine(0)), Ok(None));
    assert_eq!(title_buffer_size(failed), Err(-7));
    let buffer = vec![0x48, 0x69, 0x21, 0];
    assert_eq!(get_window_title(fine(3), buffer.clone(), fine(3)), Ok("Hi!".to_string()));
    assert_eq!(get_window_title(fine(3), buffer.clone(), fine(2)), Ok("Hi".to_string()));
    assert_eq!(get_window_title(fine(3), buffer.clone(), fine(0)), Ok(String::new()));
    assert_eq!(get_window_title(fine(3), buffer.clone(), failed), Err(-7));
    assert_eq!(get_window_title(fine(0), buffer.clone(), fine(3)), Ok(String::new()));
    assert_eq!(get_window_title(failed, buffer, fine(3)), Err(-7));
    let lone = WindowHandle::new(1).get_title(fine(1), vec![0xd800], fine(1));
    assert_eq!(lone, Ok("\u{fffd}".to_string()));
}

#[test]
fn monitors_fall_back_to_full_high_definition() {
    let wide = Rect { left: -2560, top: 0, right: 0, bottom: 1440 };
    let small = Rect { left: 0, top: 0, right: 800, bottom: 600 };
    assert_eq!(get_primary_monitor_resolution(Some(wide)), (2560, 1440));
    assert_eq!(get_primary_monitor_resolution(None), (1920, 1080));
    assert_eq!(get_window_monitor_resolution(Some(small), Some(wide)), (800, 600));
    assert_eq!(get_window_monitor_resolution(None, Some(wide)), (2560, 1440));
    assert_eq!(get_window_monitor_resolution(None, None), (1920, 1080));
}

#[test]
fn adapters_and_outputs_are_picked_by_the_centre() {
    let left = Some(Rect { left: 0, top: 0, right: 1920, bottom: 1080 });
    let right = Some(Rect { left: 1920, top: 0, right: 3840, bottom: 1080 });
    let inside = Some(Rect { left: 2000, top: 100, right: 2400, bottom: 300 });
    let outside = Some(Rect { left: 9000, top: 9000, right: 9100, bottom: 9100 });
    let adapters = vec![vec![None, left], vec![right]];
    assert_eq!(get_adapter_for_window(inside, &adapters), AdapterChoice::Adapter(1));
    assert_eq!(get_adapter_for_window(outside, &adapters), AdapterChoice::Adapter(0));
    assert_eq!(get_adapter_for_window(None, &adapters), AdapterChoice::DeviceAdapter);
    assert_eq!(get_adapter_for_window(inside, &vec![]), AdapterChoice::DeviceAdapter);
    let outputs = vec![left, None, right];
    assert_eq!(setup_dxgi_duplication_for_window(inside, &outputs), Some(2));
    assert_eq!(setup_dxgi_duplication_for_window(outside, &outputs), Some(0));
    assert_eq!(setup_dxgi_duplication_for_window(None, &outputs), Some(0));
    assert_eq!(setup_dxgi_duplication_for_window(inside, &vec![]), None);
}

#[test]
fn trackers_check_now_and_then() {
    let start = Duration::from_secs(10);
    let mut tracker =
        WindowTracker::new(WindowHandle::new(5), "Game", start, Some((1, 2, 30, 40)));
    assert_eq!(tracker.get_position(), Some((1, 2)));
    assert_eq!(tracker.get_size(), Some((30, 40)));
    assert!(!tracker.use_exact_match);
    assert!(tracker.ensure_valid_window(Duration::from_millis(11_999)));
    assert!(!tracker.ensure_valid_window(Duration::from_secs(12)));
    assert!(tracker.ensure_valid_window(Duration::from_secs(13)));
    assert!(!tracker.update_window_rect(Duration::from_millis(10_499)));
    assert!(tracker.update_window_rect(Duration::from_millis(10_500)));
    assert!(!tracker.update_window_rect(Duration::from_millis(10_900)));
    tracker.set_window_rect(None);
    assert_eq!(tracker.get_position(), Some((1, 2)));
    tracker.set_window_rect(Some((3, 4, 5, 6)));
    assert_eq!(tracker.get_size(), Some((5, 6)));
    assert!(!tracker.is_focused(WindowHandle::new(6)));
    assert!(!tracker.ever_focused);
    assert!(tracker.is_focused(WindowHandle::new(5)));
    assert!(!tracker.is_focused(WindowHandle::new(6)));
    assert!(tracker.ever_focused);
    assert!(!tracker.adopt(None));
    assert!(tracker.adopt(Some(WindowHandle::new(8))));
    assert_eq!(tracker.hwnd, WindowHandle::new(8));
    tracker.restart(WindowHandle::new(9), Duration::from_secs(20), None);
    assert_eq!(tracker.hwnd, WindowHandle::new(9));
    assert_eq!(tracker.get_position(), None);
    assert!(!tracker.ever_focused);
    assert_eq!(tracker.process_name, "Game");
}

#[test]
fn trackers_without_a_rectangle_know_no_place() {
    let tracker = WindowTracker::new_with_exact_match(
        WindowHandle::new(5),
        "Game",
        true,
        Duration::from_secs(0),
        None,
    );
    assert_eq!(tracker.get_position(), None);
    assert_eq!(tracker.get_size(), None);
    assert!(tracker.use_exact_match);
    assert_eq!(tracker.check_interval, Duration::from_secs(2));
    assert_eq!(tracker.rect_check_interval, Duration::from_millis(500));
}
