use terminal_facade::backend::Backend;
use terminal_facade::base::ClearType;
use terminal_facade::base::Platform;
use terminal_facade::terminal::Terminal;
use terminal_facade::terminal::get;
use terminal_facade::terminal::get_terminal;

#[test]
fn selector_is_total_and_matches_platform() {
    assert_eq!(get_terminal(Platform::Unix), Some(Backend::Unix));
    assert_eq!(get_terminal(Platform::Windows), Some(Backend::WinApi));
    assert_eq!(get_terminal(Platform::Unknown), Some(Backend::NoOp));
}

#[test]
fn fallback_clear_every_region_completes() {
    let mut t = get(Platform::Unknown);
    t.clear(ClearType::All);
    t.clear(ClearType::AfterCursor);
    t.clear(ClearType::BeforeCursor);
    t.clear(ClearType::CurrentLine);
    t.clear(ClearType::UntilNewLine);
}

#[test]
fn fallback_size_is_absent() {
    let mut t = get(Platform::Unknown);
    assert_eq!(t.terminal_size(), None);
}

#[test]
fn fallback_size_stays_absent_across_calls() {
    let mut t = get(Platform::Unknown);
    assert_eq!(t.terminal_size(), None);
    assert_eq!(t.terminal_size(), None);
    assert_eq!(t.terminal_size(), None);
}

#[test]
fn resolution_is_stable_on_a_fresh_handle() {
    // Two operations in sequence on a fresh, lazily resolved handle behave
    // as one fallback backend throughout: the size stays absent whatever
    // ran before.
    let mut t = Terminal::new(Platform::Unknown);
    assert_eq!(t.terminal_size(), None);
    t.clear(ClearType::All);
    t.scroll_up(2);
    t.scroll_down();
    assert_eq!(t.terminal_size(), None);
}

#[test]
fn init_twice_is_harmless() {
    let mut t = Terminal::new(Platform::Unknown);
    t.init();
    t.init();
    assert_eq!(t.terminal_size(), None);
}

#[test]
fn scroll_up_zero_and_negative_are_inert() {
    let mut t = get(Platform::Unknown);
    t.scroll_up(0);
    t.scroll_up(-1);
    t.scroll_up(-32768);
    assert_eq!(t.terminal_size(), None);
}

#[test]
fn scroll_up_emits_nothing_for_nonpositive_counts_on_real_backends() {
    assert_eq!(Backend::Unix.scroll_up_bytes(0), Vec::<u8>::new());
    assert_eq!(Backend::Unix.scroll_up_bytes(-7), Vec::<u8>::new());
    assert_eq!(Backend::WinApi.scroll_up_bytes(0), Vec::<u8>::new());
    assert_eq!(Backend::WinApi.scroll_up_bytes(-32768), Vec::<u8>::new());
}

#[test]
fn unknown_platform_backend_is_inert_in_every_operation() {
    let backend = get_terminal(Platform::Unknown).unwrap();
    assert_eq!(backend, Backend::NoOp);
    assert_eq!(backend.clear_bytes(ClearType::All), Vec::<u8>::new());
    assert_eq!(backend.clear_bytes(ClearType::AfterCursor), Vec::<u8>::new());
    assert_eq!(backend.clear_bytes(ClearType::BeforeCursor), Vec::<u8>::new());
    assert_eq!(backend.clear_bytes(ClearType::CurrentLine), Vec::<u8>::new());
    assert_eq!(backend.clear_bytes(ClearType::UntilNewLine), Vec::<u8>::new());
    assert_eq!(backend.scroll_up_bytes(5), Vec::<u8>::new());
    assert_eq!(backend.scroll_up_bytes(0), Vec::<u8>::new());
    assert_eq!(backend.scroll_up_bytes(-3), Vec::<u8>::new());
    assert_eq!(backend.terminal_size(), None);
}

#[test]
fn end_to_end_scenario_on_the_fallback() {
    let mut t = get(Platform::Unknown);
    let first = t.terminal_size();
    t.clear(ClearType::All);
    let second = t.terminal_size();
    assert_eq!(first, None);
    assert_eq!(second, None);
}

#[test]
fn scroll_down_is_a_stub() {
    let t = get(Platform::Unix);
    t.scroll_down();
    let t2 = get(Platform::Unknown);
    t2.scroll_down();
}
