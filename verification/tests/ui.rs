use jvm_tui::app::{App, AppMode, ExportFormat, Tab};
use jvm_tui::event::Event;
use jvm_tui::store::MetricsStore;

fn fresh_app() -> App {
    App::new(MetricsStore::new(10))
}

#[test]
fn tab_cycle_is_closed() {
    assert_eq!(Tab::Overview.next(), Tab::Memory);
    assert_eq!(Tab::Memory.next(), Tab::Threads);
    assert_eq!(Tab::Threads.next(), Tab::GC);
    assert_eq!(Tab::GC.next(), Tab::Classes);
    assert_eq!(Tab::Classes.next(), Tab::Overview);
    for t in Tab::all() {
        assert_eq!(t.next().previous(), t);
        assert_eq!(t.previous().next(), t);
    }
}

#[test]
fn tab_from_index_and_titles() {
    assert_eq!(Tab::from_index(0), Some(Tab::Overview));
    assert_eq!(Tab::from_index(4), Some(Tab::Classes));
    assert_eq!(Tab::from_index(5), None);
    assert_eq!(Tab::Overview.title(), "Overview");
    assert_eq!(Tab::GC.title(), "GC");
    assert_eq!(Tab::all().len(), 5);
}

#[test]
fn export_format_cycle_and_labels() {
    assert_eq!(ExportFormat::Json.next(), ExportFormat::Prometheus);
    assert_eq!(ExportFormat::Prometheus.next(), ExportFormat::Csv);
    assert_eq!(ExportFormat::Csv.next(), ExportFormat::Json);
    assert_eq!(ExportFormat::Json.previous(), ExportFormat::Csv);
    assert_eq!(ExportFormat::Json.extension(), "json");
    assert_eq!(ExportFormat::Prometheus.extension(), "prom");
    assert_eq!(ExportFormat::Csv.extension(), "csv");
    assert_eq!(ExportFormat::Prometheus.display_name(), "Prometheus");
}

#[test]
fn app_tab_switching_resets_scroll() {
    let mut app = fresh_app();
    app.scroll_down();
    app.scroll_down();
    assert_eq!(app.scroll_offset, 2);
    app.next_tab();
    assert_eq!(app.current_tab, Tab::Memory);
    assert_eq!(app.scroll_offset, 0);
    app.scroll_down();
    app.previous_tab();
    assert_eq!(app.current_tab, Tab::Overview);
    assert_eq!(app.scroll_offset, 0);
    app.select_tab(3);
    assert_eq!(app.current_tab, Tab::GC);
    app.select_tab(9);
    assert_eq!(app.current_tab, Tab::GC);
}

#[test]
fn app_scrolling_saturates() {
    let mut app = fresh_app();
    app.scroll_up();
    assert_eq!(app.scroll_offset, 0);
    app.scroll_down();
    app.scroll_up();
    assert_eq!(app.scroll_offset, 0);
    app.scroll_down();
    app.scroll_down();
    app.reset_scroll();
    assert_eq!(app.scroll_offset, 0);
}

#[test]
fn app_modes_toggle_and_clear() {
    let mut app = fresh_app();
    assert!(matches!(app.mode, AppMode::Normal));
    app.toggle_help();
    assert!(matches!(app.mode, AppMode::Help));
    app.toggle_help();
    assert!(matches!(app.mode, AppMode::Normal));

    app.show_gc_confirmation();
    assert!(matches!(app.mode, AppMode::ConfirmGc));
    app.cancel_confirmation();
    assert!(matches!(app.mode, AppMode::Normal));

    app.show_error("boom".to_string());
    assert!(matches!(app.mode, AppMode::Error(_)));
    app.clear_loading();
    assert!(matches!(app.mode, AppMode::Error(_)));
    app.clear_error();
    assert!(matches!(app.mode, AppMode::Normal));

    app.show_loading("working".to_string());
    assert!(matches!(app.mode, AppMode::Loading(_)));
    app.clear_loading();
    assert!(matches!(app.mode, AppMode::Normal));

    app.show_export_format_selector();
    assert!(matches!(app.mode, AppMode::SelectExportFormat));
    app.next_export_format();
    assert_eq!(app.selected_export_format, ExportFormat::Prometheus);
    app.previous_export_format();
    assert_eq!(app.selected_export_format, ExportFormat::Json);
    app.show_export_confirmation();
    assert!(matches!(app.mode, AppMode::ConfirmExport));
    app.show_export_success("/tmp/out.json".to_string());
    assert!(matches!(app.mode, AppMode::ExportSuccess(_)));

    app.quit();
    assert!(app.should_quit);
}

#[test]
fn app_search_editing_and_navigation() {
    let mut app = fresh_app();
    app.start_search();
    assert!(matches!(app.mode, AppMode::Search));
    app.push_search_char('g');
    app.push_search_char('c');
    assert_eq!(app.search_query, "gc");
    app.pop_search_char();
    assert_eq!(app.search_query, "g");
    app.pop_search_char();
    app.pop_search_char();
    assert_eq!(app.search_query, "");

    app.update_search_results(vec![3, 8, 13]);
    assert_eq!(app.search_index, 0);
    app.next_search_result();
    assert_eq!(app.search_index, 1);
    assert_eq!(app.scroll_offset, 8);
    app.next_search_result();
    app.next_search_result();
    assert_eq!(app.search_index, 0);
    assert_eq!(app.scroll_offset, 3);
    app.prev_search_result();
    assert_eq!(app.search_index, 2);
    assert_eq!(app.scroll_offset, 13);

    app.cancel_search();
    assert!(matches!(app.mode, AppMode::Normal));
    assert!(app.search_results.is_empty());
}

#[test]
fn events_are_plain_values() {
    assert_eq!(Event::Tab(2), Event::Tab(2));
    assert_ne!(Event::Quit, Event::Idle);
    assert_ne!(Event::NextTab, Event::PrevTab);
    let e = Event::Down;
    assert!(matches!(e, Event::Down));
}
