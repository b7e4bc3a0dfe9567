//! Window bookkeeping: one window per query, positions staggered, contents
//! tracked as plain records. No drawing happens here.

use vstd::prelude::*;
use vstd::string::*;

verus! {

/// The content a window shows.
#[derive(Debug, Clone)]
pub enum WindowContent {
    /// A query window: the query, its result when ready, and a status line.
    QueryWindow { query: String, result: Option<String>, status: String },
    /// The F3 cycle visualizer.
    F3Visualizer { phase: String, entropy: u8, perfection_score: i16 },
    /// A list of process identifiers.
    ProcessList { processes: Vec<u64> },
}

/// The abstract value of a window content.
#[verifier::ext_equal]
pub enum WindowContentView {
    QueryWindow { query: Seq<char>, result: Option<Seq<char>>, status: Seq<char> },
    F3Visualizer { phase: Seq<char>, entropy: u8, perfection_score: i16 },
    ProcessList { processes: Seq<u64> },
}

impl View for WindowContent {
    type V = WindowContentView;

    closed spec fn view(&self) -> WindowContentView {
        match self {
            WindowContent::QueryWindow { query, result, status } => {
                WindowContentView::QueryWindow {
                    query: query@,
                    result: match result {
                        Some(s) => Some(s@),
                        None => None,
                    },
                    status: status@,
                }
            },
            WindowContent::F3Visualizer { phase, entropy, perfection_score } => {
                WindowContentView::F3Visualizer {
                    phase: phase@,
                    entropy: *entropy,
                    perfection_score: *perfection_score,
                }
            },
            WindowContent::ProcessList { processes } => {
                WindowContentView::ProcessList { processes: processes@ }
            },
        }
    }
}

/// The abstract value of a window.
#[verifier::ext_equal]
pub struct WindowView {
    pub window_id: u64,
    pub x: int,
    pub y: int,
    pub width: u32,
    pub height: u32,
    pub query_process_id: Option<u64>,
    pub title: Seq<char>,
    pub content: WindowContentView,
}

/// One window of the interface.
pub struct Window {
    window_id: u64,
    x: i32,
    y: i32,
    width: u32,
    height: u32,
    query_process_id: Option<u64>,
    title: String,
    content: WindowContent,
}

impl View for Window {
    type V = WindowView;

    closed spec fn view(&self) -> WindowView {
        WindowView {
            window_id: self.window_id,
            x: self.x as int,
            y: self.y as int,
            width: self.width,
            height: self.height,
            query_process_id: self.query_process_id,
            title: self.title@,
            content: self.content@,
        }
    }
}

impl Window {
    /// A fresh window: no associated process yet, showing an empty query
    /// window with status "created".
    pub fn new(window_id: u64, x: i32, y: i32, width: u32, height: u32, title: String) -> (r:
        Window)
        ensures
            r@ == (WindowView {
                window_id,
                x: x as int,
                y: y as int,
                width,
                height,
                query_process_id: None,
                title: title@,
                content: WindowContentView::QueryWindow {
                    query: Seq::empty(),
                    result: None,
                    status: "created"@,
                },
            }),
    {
        let r = Window {
            window_id,
            x,
            y,
            width,
            height,
            query_process_id: None,
            title,
            content: WindowContent::QueryWindow {
                query: String::new(),
                result: None,
                status: String::from_str("created"),
            },
        };
        proof {
            assert(r@.content =~= (WindowContentView::QueryWindow {
                query: Seq::empty(),
                result: None,
                status: "created"@,
            }));
            assert(r@ =~= (WindowView {
                window_id,
                x: x as int,
                y: y as int,
                width,
                height,
                query_process_id: None,
                title: title@,
                content: WindowContentView::QueryWindow {
                    query: Seq::empty(),
                    result: None,
                    status: "created"@,
                },
            }));
        }
        r
    }

    /// Associates a query process with the window; everything else stays.
    pub fn associate_query_process(&mut self, query_id: u64)
        ensures
            final(self)@ == (WindowView { query_process_id: Some(query_id), ..old(self)@ }),
    {
        self.query_process_id = Some(query_id);
        proof {
            assert(self@ =~= (WindowView { query_process_id: Some(query_id), ..old(self)@ }));
        }
    }

    /// Replaces the window content; everything else stays.
    pub fn update_content(&mut self, content: WindowContent)
        ensures
            final(self)@ == (WindowView { content: content@, ..old(self)@ }),
    {
        self.content = content;
        proof {
            assert(self@ =~= (WindowView { content: self.content@, ..old(self)@ }));
        }
    }
}

/// The abstract value of the window manager.
#[verifier::ext_equal]
pub struct WindowManagerView {
    pub windows: Seq<WindowView>,
    pub window_counter: u64,
}

/// The window manager: the open windows and the identifier counter.
pub struct WindowManager {
    windows: Vec<Window>,
    window_counter: u64,
}

impl View for WindowManager {
    type V = WindowManagerView;

    closed spec fn view(&self) -> WindowManagerView {
        WindowManagerView {
            windows: Seq::new(self.windows@.len(), |i: int| self.windows@[i]@),
            window_counter: self.window_counter,
        }
    }
}

impl WindowManager {
    /// A fresh manager with no windows.
    pub fn new() -> (r: WindowManager)
        ensures
            r@.windows =~= Seq::<WindowView>::empty(),
            r@.window_counter == 0,
    {
        WindowManager { windows: Vec::new(), window_counter: 0 }
    }

    /// Opens a 600x400 query window at the next staggered position, numbers
    /// it with the next identifier, associates the query process and fills
    /// the content; returns the new window identifier.
    pub fn create_query_window(&mut self, query: String, query_id: u64) -> (r: u64)
        requires
            old(self)@.window_counter < u64::MAX,
            100 + old(self)@.windows.len() * 50 <= i32::MAX,
        ensures
            r == old(self)@.window_counter + 1,
            final(self)@.window_counter == old(self)@.window_counter + 1,
            final(self)@.windows =~= old(self)@.windows.push(
                WindowView {
                    window_id: (old(self)@.window_counter + 1) as u64,
                    x: 100 + old(self)@.windows.len() as int * 50,
                    y: 100 + old(self)@.windows.len() as int * 50,
                    width: 600,
                    height: 400,
                    query_process_id: Some(query_id),
                    title: "Consulta"@,
                    content: WindowContentView::QueryWindow {
                        query: query@,
                        result: None,
                        status: "processing"@,
                    },
                },
            ),
    {
        self.window_counter = self.window_counter + 1;
        let window_id = self.window_counter;

        let offset: i32 = (self.windows.len() as i32) * 50;
        let mut window = Window::new(
            window_id,
            100 + offset,
            100 + offset,
            600,
            400,
            String::from_str("Consulta"),
        );

        window.associate_query_process(query_id);
        window.update_content(
            WindowContent::QueryWindow {
                query,
                result: None,
                status: String::from_str("processing"),
            },
        );

        let ghost wv = window@;
        self.windows.push(window);
        proof {
            assert(self@.windows =~= old(self)@.windows.push(wv));
        }
        window_id
    }

    /// A mutable borrow of the window with the given identifier, or `None`
    /// when no window matches, in which case nothing changes. When a borrow
    /// is handed out, it is exactly the first matching window, and the
    /// manager afterwards holds whatever the caller leaves in the borrow.
    pub fn get_window(&mut self, window_id: u64) -> (r: Option<&mut Window>)
        ensures
            final(self)@.window_counter == old(self)@.window_counter,
            (forall|j: int|
                0 <= j < old(self)@.windows.len() ==> (#[trigger] old(self)@.windows[j]).window_id
                    != window_id) ==> r.is_none() && final(self)@ == old(self)@,
            ({
                r matches Some(w) ==> {
                    exists|k: int|
                        {
                            &&& 0 <= k < old(self)@.windows.len()
                            &&& (#[trigger] old(self)@.windows[k]) == (*w)@
                            &&& (*w)@.window_id == window_id
                            &&& (forall|j: int|
                                0 <= j < k ==> (#[trigger] old(self)@.windows[j]).window_id
                                    != window_id)
                            &&& final(self)@.windows =~= old(self)@.windows.update(k, final(w)@)
                        }
                }
            }),
    {
        let ghost s0 = self@;
        let mut found: usize = self.windows.len();
        let mut i: usize = 0;
        let n = self.windows.len();
        while i < n
            invariant
                i <= n,
                n == self.windows@.len(),
                *self == *old(self),
                self@ == s0,
                found == n || found < i,
                found == n ==> forall|j: int|
                    0 <= j < i ==> (#[trigger] s0.windows[j]).window_id != window_id,
                found < n ==> s0.windows[found as int].window_id == window_id && forall|j: int|
                    0 <= j < found ==> (#[trigger] s0.windows[j]).window_id != window_id,
            decreases n - i,
        {
            if found == n {
                if self.windows[i].window_id == window_id {
                    found = i;
                }
            }
            i += 1;
        }
        if found < n {
            Some(&mut self.windows[found])
        } else {
            None
        }
    }

    /// All open windows, in creation order.
    pub fn get_windows(&self) -> (r: &[Window])
        ensures
            r@.len() == self@.windows.len(),
            forall|i: int| 0 <= i < r@.len() ==> (#[trigger] r@[i])@ == self@.windows[i],
    {
        self.windows.as_slice()
    }
}

} // verus!
