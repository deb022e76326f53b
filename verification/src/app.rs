//! Interactive session state: the selected tab, the modal mode, scrolling
//! and the search state.  Rendering consumes this state elsewhere; every
//! transition is decided and proved here.

use vstd::prelude::*;
use crate::store::MetricsStore;
use crate::types::JvmInfo;

verus! {

#[derive(Debug, Clone, Copy, PartialEq, Eq, Structural)]
pub enum Tab {
    Overview,
    Memory,
    Threads,
    GC,
    Classes,
}

/// The tab at a one-digit position, if any.
pub open spec fn tab_from_index(index: usize) -> Option<Tab> {
    if index == 0 {
        Some(Tab::Overview)
    } else if index == 1 {
        Some(Tab::Memory)
    } else if index == 2 {
        Some(Tab::Threads)
    } else if index == 3 {
        Some(Tab::GC)
    } else if index == 4 {
        Some(Tab::Classes)
    } else {
        None
    }
}

/// The tab to the right of `t`, wrapping around.
pub open spec fn tab_next(t: Tab) -> Tab {
    match t {
        Tab::Overview => Tab::Memory,
        Tab::Memory => Tab::Threads,
        Tab::Threads => Tab::GC,
        Tab::GC => Tab::Classes,
        Tab::Classes => Tab::Overview,
    }
}

/// The tab to the left of `t`, wrapping around.
pub open spec fn tab_previous(t: Tab) -> Tab {
    match t {
        Tab::Overview => Tab::Classes,
        Tab::Memory => Tab::Overview,
        Tab::Threads => Tab::Memory,
        Tab::GC => Tab::Threads,
        Tab::Classes => Tab::GC,
    }
}

impl Tab {
    /// The tab to the right, wrapping around.
    pub fn next(self) -> (r: Self)
        ensures
            r == tab_next(self),
    {
        match self {
            Tab::Overview => Tab::Memory,
            Tab::Memory => Tab::Threads,
            Tab::Threads => Tab::GC,
            Tab::GC => Tab::Classes,
            Tab::Classes => Tab::Overview,
        }
    }

    /// The tab to the left, wrapping around.
    pub fn previous(self) -> (r: Self)
        ensures
            r == tab_previous(self),
    {
        match self {
            Tab::Overview => Tab::Classes,
            Tab::Memory => Tab::Overview,
            Tab::Threads => Tab::Memory,
            Tab::GC => Tab::Threads,
            Tab::Classes => Tab::GC,
        }
    }

    /// The tab at a one-digit position, if any.
    pub fn from_index(index: usize) -> (r: Option<Self>)
        ensures
            r == tab_from_index(index),
    {
        match index {
            0 => Some(Tab::Overview),
            1 => Some(Tab::Memory),
            2 => Some(Tab::Threads),
            3 => Some(Tab::GC),
            4 => Some(Tab::Classes),
            _ => None,
        }
    }

    pub fn title(&self) -> (r: &str)
        ensures
            match self {
                Tab::Overview => r@ == "Overview"@,
                Tab::Memory => r@ == "Memory"@,
                Tab::Threads => r@ == "Threads"@,
                Tab::GC => r@ == "GC"@,
                Tab::Classes => r@ == "Classes"@,
            },
    {
        match self {
            Tab::Overview => "Overview",
            Tab::Memory => "Memory",
            Tab::Threads => "Threads",
            Tab::GC => "GC",
            Tab::Classes => "Classes",
        }
    }

    /// Every tab, in display order.
    pub fn all() -> (r: [Tab; 5])
        ensures
            r@ == seq![Tab::Overview, Tab::Memory, Tab::Threads, Tab::GC, Tab::Classes],
    {
        let r = [Tab::Overview, Tab::Memory, Tab::Threads, Tab::GC, Tab::Classes];
        proof {
            assert(r@ =~= seq![Tab::Overview, Tab::Memory, Tab::Threads, Tab::GC, Tab::Classes]);
        }
        r
    }
}

#[derive(Debug, Clone, Copy, PartialEq, Eq, Structural)]
pub enum ExportFormat {
    Json,
    Prometheus,
    Csv,
}

/// The format after `f`, wrapping around.
pub open spec fn format_next(f: ExportFormat) -> ExportFormat {
    match f {
        ExportFormat::Json => ExportFormat::Prometheus,
        ExportFormat::Prometheus => ExportFormat::Csv,
        ExportFormat::Csv => ExportFormat::Json,
    }
}

/// The format before `f`, wrapping around.
pub open spec fn format_previous(f: ExportFormat) -> ExportFormat {
    match f {
        ExportFormat::Json => ExportFormat::Csv,
        ExportFormat::Prometheus => ExportFormat::Json,
        ExportFormat::Csv => ExportFormat::Prometheus,
    }
}

impl ExportFormat {
    pub fn next(self) -> (r: Self)
        ensures
            r == format_next(self),
    {
        match self {
            ExportFormat::Json => ExportFormat::Prometheus,
            ExportFormat::Prometheus => ExportFormat::Csv,
            ExportFormat::Csv => ExportFormat::Json,
        }
    }

    pub fn previous(self) -> (r: Self)
        ensures
            r == format_previous(self),
    {
        match self {
            ExportFormat::Json => ExportFormat::Csv,
            ExportFormat::Prometheus => ExportFormat::Json,
            ExportFormat::Csv => ExportFormat::Prometheus,
        }
    }

    pub fn extension(&self) -> (r: &str)
        ensures
            match self {
                ExportFormat::Json => r@ == "json"@,
                ExportFormat::Prometheus => r@ == "prom"@,
                ExportFormat::Csv => r@ == "csv"@,
            },
    {
        match self {
            ExportFormat::Json => "json",
            ExportFormat::Prometheus => "prom",
            ExportFormat::Csv => "csv",
        }
    }

    pub fn display_name(&self) -> (r: &str)
        ensures
            match self {
                ExportFormat::Json => r@ == "JSON"@,
                ExportFormat::Prometheus => r@ == "Prometheus"@,
                ExportFormat::Csv => r@ == "CSV"@,
            },
    {
        match self {
            ExportFormat::Json => "JSON",
            ExportFormat::Prometheus => "Prometheus",
            ExportFormat::Csv => "CSV",
        }
    }
}

/// What the interface is showing besides the tab content.
pub enum AppMode {
    Normal,
    Help,
    ConfirmGc,
    ConfirmExport,
    SelectExportFormat,
    Error(String),
    Loading(String),
    ExportSuccess(String),
    Search,
}

/// Relies on `String::pop`: removes the last character, if any.
#[verifier::external_body]
fn pop_char(s: &mut String)
    ensures
        final(s)@ == if old(s)@.len() == 0 {
            old(s)@
        } else {
            old(s)@.drop_last()
        },
{
    let _ = s.pop();
}

pub struct App {
    pub should_quit: bool,
    pub current_tab: Tab,
    pub jvm_info: Option<JvmInfo>,
    pub metrics_store: MetricsStore,
    pub mode: AppMode,
    pub scroll_offset: usize,
    pub search_query: String,
    pub search_results: Vec<usize>,
    pub search_index: usize,
    pub selected_export_format: ExportFormat,
}

impl App {
    pub fn new(metrics_store: MetricsStore) -> (r: Self)
        ensures
            !r.should_quit,
            r.current_tab == Tab::Overview,
            r.jvm_info is None,
            r.metrics_store == metrics_store,
            r.mode is Normal,
            r.scroll_offset == 0,
            r.search_query@.len() == 0,
            r.search_results@.len() == 0,
            r.search_index == 0,
            r.selected_export_format == ExportFormat::Json,
    {
        App {
            should_quit: false,
            current_tab: Tab::Overview,
            jvm_info: None,
            metrics_store,
            mode: AppMode::Normal,
            scroll_offset: 0,
            search_query: String::new(),
            search_results: Vec::new(),
            search_index: 0,
            selected_export_format: ExportFormat::Json,
        }
    }

    pub fn quit(&mut self)
        ensures
            *final(self) == (App { should_quit: true, ..*old(self) }),
    {
        self.should_quit = true;
    }

    pub fn next_tab(&mut self)
        ensures
            *final(self) == (App {
                current_tab: tab_next(old(self).current_tab),
                scroll_offset: 0,
                ..*old(self)
            }),
    {
        self.current_tab = self.current_tab.next();
        self.scroll_offset = 0;
    }

    pub fn previous_tab(&mut self)
        ensures
            *final(self) == (App {
                current_tab: tab_previous(old(self).current_tab),
                scroll_offset: 0,
                ..*old(self)
            }),
    {
        self.current_tab = self.current_tab.previous();
        self.scroll_offset = 0;
    }

    /// Switches to the tab at `index`; out-of-range indexes change nothing.
    pub fn select_tab(&mut self, index: usize)
        ensures
            *final(self) == match tab_from_index(index) {
                Some(tab) => (App { current_tab: tab, scroll_offset: 0, ..*old(self) }),
                None => *old(self),
            },
    {
        match Tab::from_index(index) {
            Some(tab) => {
                self.current_tab = tab;
                self.scroll_offset = 0;
            },
            None => {},
        }
    }

    pub fn set_jvm_info(&mut self, info: JvmInfo)
        ensures
            *final(self) == (App { jvm_info: Some(info), ..*old(self) }),
    {
        self.jvm_info = Some(info);
    }

    /// Opens the help overlay, or closes it when it is already shown.
    pub fn toggle_help(&mut self)
        ensures
            *final(self) == (App {
                mode: if old(self).mode is Help {
                    AppMode::Normal
                } else {
                    AppMode::Help
                },
                ..*old(self)
            }),
    {
        self.mode = match self.mode {
            AppMode::Help => AppMode::Normal,
            _ => AppMode::Help,
        };
    }

    pub fn show_gc_confirmation(&mut self)
        ensures
            *final(self) == (App { mode: AppMode::ConfirmGc, ..*old(self) }),
    {
        self.mode = AppMode::ConfirmGc;
    }

    pub fn show_export_format_selector(&mut self)
        ensures
            *final(self) == (App { mode: AppMode::SelectExportFormat, ..*old(self) }),
    {
        self.mode = AppMode::SelectExportFormat;
    }

    pub fn show_export_confirmation(&mut self)
        ensures
            *final(self) == (App { mode: AppMode::ConfirmExport, ..*old(self) }),
    {
        self.mode = AppMode::ConfirmExport;
    }

    pub fn cancel_confirmation(&mut self)
        ensures
            *final(self) == (App { mode: AppMode::Normal, ..*old(self) }),
    {
        self.mode = AppMode::Normal;
    }

    pub fn next_export_format(&mut self)
        ensures
            *final(self) == (App {
                selected_export_format: format_next(old(self).selected_export_format),
                ..*old(self)
            }),
    {
        self.selected_export_format = self.selected_export_format.next();
    }

    pub fn previous_export_format(&mut self)
        ensures
            *final(self) == (App {
                selected_export_format: format_previous(old(self).selected_export_format),
                ..*old(self)
            }),
    {
        self.selected_export_format = self.selected_export_format.previous();
    }

    pub fn show_export_success(&mut self, path: String)
        ensures
            *final(self) == (App { mode: AppMode::ExportSuccess(path), ..*old(self) }),
    {
        self.mode = AppMode::ExportSuccess(path);
    }

    /// Scrolls one line down, stopping at the integer bound.
    pub fn scroll_down(&mut self)
        ensures
            *final(self) == (App {
                scroll_offset: if old(self).scroll_offset == usize::MAX {
                    usize::MAX
                } else {
                    (old(self).scroll_offset + 1) as usize
                },
                ..*old(self)
            }),
    {
        if self.scroll_offset < usize::MAX {
            self.scroll_offset = self.scroll_offset + 1;
        }
    }

    /// Scrolls one line up, stopping at the top.
    pub fn scroll_up(&mut self)
        ensures
            *final(self) == (App {
                scroll_offset: if old(self).scroll_offset == 0 {
                    0usize
                } else {
                    (old(self).scroll_offset - 1) as usize
                },
                ..*old(self)
            }),
    {
        if self.scroll_offset > 0 {
            self.scroll_offset = self.scroll_offset - 1;
        }
    }

    pub fn reset_scroll(&mut self)
        ensures
            *final(self) == (App { scroll_offset: 0, ..*old(self) }),
    {
        self.scroll_offset = 0;
    }

    pub fn show_error(&mut self, message: String)
        ensures
            *final(self) == (App { mode: AppMode::Error(message), ..*old(self) }),
    {
        self.mode = AppMode::Error(message);
    }

    /// Leaves an error display; any other mode stays.
    pub fn clear_error(&mut self)
        ensures
            *final(self) == (App {
                mode: if old(self).mode is Error {
                    AppMode::Normal
                } else {
                    old(self).mode
                },
                ..*old(self)
            }),
    {
        if matches!(self.mode, AppMode::Error(_)) {
            self.mode = AppMode::Normal;
        }
    }

    pub fn show_loading(&mut self, message: String)
        ensures
            *final(self) == (App { mode: AppMode::Loading(message), ..*old(self) }),
    {
        self.mode = AppMode::Loading(message);
    }

    /// Leaves a loading display; any other mode stays.
    pub fn clear_loading(&mut self)
        ensures
            *final(self) == (App {
                mode: if old(self).mode is Loading {
                    AppMode::Normal
                } else {
                    old(self).mode
                },
                ..*old(self)
            }),
    {
        if matches!(self.mode, AppMode::Loading(_)) {
            self.mode = AppMode::Normal;
        }
    }

    pub fn start_search(&mut self)
        ensures
            final(self).mode is Search,
            final(self).search_query@.len() == 0,
            final(self).search_results@.len() == 0,
            final(self).search_index == 0,
            final(self).should_quit == old(self).should_quit,
            final(self).current_tab == old(self).current_tab,
            final(self).jvm_info == old(self).jvm_info,
            final(self).metrics_store == old(self).metrics_store,
            final(self).scroll_offset == old(self).scroll_offset,
            final(self).selected_export_format == old(self).selected_export_format,
    {
        self.mode = AppMode::Search;
        self.search_query = String::new();
        self.search_results = Vec::new();
        self.search_index = 0;
    }

    pub fn cancel_search(&mut self)
        ensures
            final(self).mode is Normal,
            final(self).search_query@.len() == 0,
            final(self).search_results@.len() == 0,
            final(self).search_index == 0,
            final(self).should_quit == old(self).should_quit,
            final(self).current_tab == old(self).current_tab,
            final(self).jvm_info == old(self).jvm_info,
            final(self).metrics_store == old(self).metrics_store,
            final(self).scroll_offset == old(self).scroll_offset,
            final(self).selected_export_format == old(self).selected_export_format,
    {
        self.mode = AppMode::Normal;
        self.search_query = String::new();
        self.search_results = Vec::new();
        self.search_index = 0;
    }

    pub fn push_search_char(&mut self, c: char)
        ensures
            final(self).search_query@ == old(self).search_query@.push(c),
            final(self).mode == old(self).mode,
            final(self).search_results == old(self).search_results,
            final(self).search_index == old(self).search_index,
            final(self).should_quit == old(self).should_quit,
            final(self).current_tab == old(self).current_tab,
            final(self).jvm_info == old(self).jvm_info,
            final(self).metrics_store == old(self).metrics_store,
            final(self).scroll_offset == old(self).scroll_offset,
            final(self).selected_export_format == old(self).selected_export_format,
    {
        crate::text::push_char(&mut self.search_query, c);
    }

    pub fn pop_search_char(&mut self)
        ensures
            final(self).search_query@ == if old(self).search_query@.len() == 0 {
                old(self).search_query@
            } else {
                old(self).search_query@.drop_last()
            },
            final(self).mode == old(self).mode,
            final(self).search_results == old(self).search_results,
            final(self).search_index == old(self).search_index,
            final(self).should_quit == old(self).should_quit,
            final(self).current_tab == old(self).current_tab,
            final(self).jvm_info == old(self).jvm_info,
            final(self).metrics_store == old(self).metrics_store,
            final(self).scroll_offset == old(self).scroll_offset,
            final(self).selected_export_format == old(self).selected_export_format,
    {
        pop_char(&mut self.search_query);
    }

    pub fn update_search_results(&mut self, results: Vec<usize>)
        ensures
            *final(self) == (App { search_results: results, search_index: 0, ..*old(self) }),
    {
        self.search_results = results;
        self.search_index = 0;
    }

    /// Moves to the next search hit, wrapping around, and scrolls to it.
    pub fn next_search_result(&mut self)
        ensures
            old(self).search_results@.len() == 0 ==> *final(self) == *old(self),
            old(self).search_results@.len() > 0 ==> {
                let ni = if old(self).search_index + 1 >= old(self).search_results@.len() {
                    0int
                } else {
                    old(self).search_index + 1
                };
                *final(self) == (App {
                    search_index: ni as usize,
                    scroll_offset: old(self).search_results@[ni],
                    ..*old(self)
                })
            },
    {
        let len = self.search_results.len();
        if len > 0 {
            let ni = if self.search_index >= len - 1 {
                0
            } else {
                self.search_index + 1
            };
            self.search_index = ni;
            self.scroll_offset = self.search_results[ni];
        }
    }

    /// Moves to the previous search hit, wrapping around, and scrolls to it.
    pub fn prev_search_result(&mut self)
        ensures
            old(self).search_results@.len() == 0 ==> *final(self) == *old(self),
            old(self).search_results@.len() > 0 ==> {
                let ni = if old(self).search_index == 0 {
                    old(self).search_results@.len() - 1
                } else {
                    old(self).search_index - 1
                };
                let off = if ni < old(self).search_results@.len() {
                    old(self).search_results@[ni as int]
                } else {
                    old(self).scroll_offset
                };
                *final(self) == (App {
                    search_index: ni as usize,
                    scroll_offset: off,
                    ..*old(self)
                })
            },
    {
        let len = self.search_results.len();
        if len > 0 {
            let ni = if self.search_index == 0 {
                len - 1
            } else {
                self.search_index - 1
            };
            self.search_index = ni;
            if ni < self.search_results.len() {
                self.scroll_offset = self.search_results[ni];
            }
        }
    }
}

} // verus!
