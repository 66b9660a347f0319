//! A verified model of the windowing state a host drives: a list of windows,
//! each with its stack of webviews, focus flags, title, size, and command
//! bar. A host UI keeps one `Desktop` as the source of truth for indices and
//! focus, performing the real drawing itself.
//!
//! Indices are positions in the lists; closing a window or webview shifts
//! the positions after it down by one. Closing the focused webview focuses
//! the webview now at its position, or the first when it was the last.

use vstd::prelude::*;

use crate::ui::WindowArea;

verus! {

/// One webview: the URI it shows, its title, and whether it is hidden
/// behind another webview of its window.
#[derive(Debug)]
pub struct WebView {
    pub uri: String,
    pub title: String,
    pub hidden: bool,
}

impl WebView {
    /// A fresh webview, visible and empty.
    pub fn new() -> (r: WebView)
        ensures
            r.uri@ == Seq::<char>::empty(),
            r.title@ == Seq::<char>::empty(),
            !r.hidden,
    {
        WebView { uri: String::new(), title: String::new(), hidden: false }
    }
}

/// One browser window: its title, size, visibility, webviews, command bar
/// state, and which area holds keyboard focus.
#[derive(Debug)]
pub struct Window {
    pub title: String,
    pub webviews: Vec<WebView>,
    pub visible: bool,
    pub width: u32,
    pub height: u32,
    pub command_field_text: String,
    pub command_bar_visible: bool,
    pub focused_area: WindowArea,
}

impl Window {
    /// A fresh window with the given title and no webviews.
    pub fn new(title: &str) -> (r: Window)
        ensures
            r.title@ == title@,
            r.webviews@.len() == 0,
            r.visible,
            r.command_field_text@ == Seq::<char>::empty(),
            r.command_bar_visible,
            r.focused_area == WindowArea::WebView,
    {
        Window {
            title: title.to_owned(),
            webviews: Vec::new(),
            visible: true,
            width: 800,
            height: 600,
            command_field_text: String::new(),
            command_bar_visible: true,
            focused_area: WindowArea::WebView,
        }
    }

    /// Hide every webview of this window.
    fn hide_all_webviews(&mut self)
        ensures
            final(self).webviews@.len() == old(self).webviews@.len(),
            forall|k: int|
                0 <= k < final(self).webviews@.len() ==> final(self).webviews@[k].hidden
                    && final(self).webviews@[k].uri == old(self).webviews@[k].uri
                    && final(self).webviews@[k].title == old(self).webviews@[k].title,
            final(self).title == old(self).title,
            final(self).visible == old(self).visible,
            final(self).width == old(self).width,
            final(self).height == old(self).height,
            final(self).command_field_text == old(self).command_field_text,
            final(self).command_bar_visible == old(self).command_bar_visible,
            final(self).focused_area == old(self).focused_area,
    {
        let n = self.webviews.len();
        let mut i: usize = 0;
        while i < n
            invariant
                0 <= i <= n,
                n == self.webviews@.len(),
                forall|k: int|
                    0 <= k < n ==> self.webviews@[k].uri == old(self).webviews@[k].uri
                        && self.webviews@[k].title == old(self).webviews@[k].title,
                forall|k: int| 0 <= k < i ==> self.webviews@[k].hidden,
                forall|k: int|
                    i <= k < n ==> self.webviews@[k].hidden == old(self).webviews@[k].hidden,
                self.title == old(self).title,
                self.visible == old(self).visible,
                self.width == old(self).width,
                self.height == old(self).height,
                self.command_field_text == old(self).command_field_text,
                self.command_bar_visible == old(self).command_bar_visible,
                self.focused_area == old(self).focused_area,
            decreases n - i,
        {
            let mut v = self.webviews.remove(i);
            v.hidden = true;
            self.webviews.insert(i, v);
            i = i + 1;
        }
    }

    /// Add a webview showing `uri` and focus it: every other webview is
    /// hidden, and the new one comes last, visible.
    pub fn add_webview(&mut self, uri: &str)
        ensures
            final(self).webviews@.len() == old(self).webviews@.len() + 1,
            final(self).webviews@.last().uri@ == uri@,
            !final(self).webviews@.last().hidden,
            forall|k: int| 0 <= k < old(self).webviews@.len() ==> final(self).webviews@[k].hidden,
            final(self).title == old(self).title,
            final(self).focused_area == WindowArea::WebView,
    {
        self.hide_all_webviews();
        let mut v = WebView::new();
        v.uri = uri.to_owned();
        self.webviews.push(v);
        self.focused_area = WindowArea::WebView;
    }

    /// The index of the first webview not hidden, if any.
    pub fn focused_webview_index(&self) -> (r: Option<u32>)
        requires
            self.webviews@.len() < 0x1_0000_0000,
        ensures
            match r {
                Some(i) => 0 <= i < self.webviews@.len() && !self.webviews@[i as int].hidden
                    && forall|k: int| 0 <= k < i ==> self.webviews@[k].hidden,
                None => forall|k: int| 0 <= k < self.webviews@.len() ==> self.webviews@[k].hidden,
            },
    {
        let n = self.webviews.len();
        let mut i: usize = 0;
        while i < n
            invariant
                0 <= i <= n,
                n == self.webviews@.len(),
                n < 0x1_0000_0000,
                forall|k: int| 0 <= k < i ==> self.webviews@[k].hidden,
            decreases n - i,
        {
            if !self.webviews[i].hidden {
                return Some(i as u32);
            }
            i = i + 1;
        }
        None
    }

    /// Show exactly the webview at `index`, hiding the others; an index out
    /// of range changes nothing.
    pub fn focus_webview(&mut self, index: u32)
        ensures
            final(self).webviews@.len() == old(self).webviews@.len(),
            index < old(self).webviews@.len() ==> forall|k: int|
                0 <= k < final(self).webviews@.len() ==> final(self).webviews@[k].hidden == (k
                    != index as int),
            index >= old(self).webviews@.len() ==> *final(self) == *old(self),
            forall|k: int|
                0 <= k < final(self).webviews@.len() ==> final(self).webviews@[k].uri == old(self).webviews@[k].uri
                    && final(self).webviews@[k].title == old(self).webviews@[k].title,
            final(self).title == old(self).title,
            final(self).visible == old(self).visible,
            final(self).width == old(self).width,
            final(self).height == old(self).height,
            final(self).command_field_text == old(self).command_field_text,
            final(self).command_bar_visible == old(self).command_bar_visible,
            final(self).focused_area == old(self).focused_area,
    {
        let n = self.webviews.len();
        if index as usize >= n {
            return ;
        }
        let mut i: usize = 0;
        while i < n
            invariant
                0 <= i <= n,
                n == self.webviews@.len(),
                index < n,
                forall|k: int|
                    0 <= k < n ==> self.webviews@[k].uri == old(self).webviews@[k].uri
                        && self.webviews@[k].title == old(self).webviews@[k].title,
                forall|k: int| 0 <= k < i ==> self.webviews@[k].hidden == (k != index as int),
                forall|k: int|
                    i <= k < n ==> self.webviews@[k].hidden == old(self).webviews@[k].hidden,
                self.title == old(self).title,
                self.visible == old(self).visible,
                self.width == old(self).width,
                self.height == old(self).height,
                self.command_field_text == old(self).command_field_text,
                self.command_bar_visible == old(self).command_bar_visible,
                self.focused_area == old(self).focused_area,
            decreases n - i,
        {
            let mut v = self.webviews.remove(i);
            v.hidden = i != index as usize;
            self.webviews.insert(i, v);
            i = i + 1;
        }
    }
}

} // verus!

verus! {

/// The index of the first webview not hidden, looking from `i` on.
pub open spec fn first_visible_from(vs: Seq<WebView>, i: int) -> Option<int>
    decreases vs.len() - i,
{
    if i < 0 || i >= vs.len() {
        None
    } else if !vs[i].hidden {
        Some(i)
    } else {
        first_visible_from(vs, i + 1)
    }
}

/// The index of the first webview not hidden, if any.
pub open spec fn first_visible(vs: Seq<WebView>) -> Option<int> {
    first_visible_from(vs, 0)
}

/// Whether `a` and `b` agree on everything but their webviews.
pub open spec fn window_eq_except_webviews(a: Window, b: Window) -> bool {
    a.title == b.title && a.visible == b.visible && a.width == b.width && a.height == b.height
        && a.command_field_text == b.command_field_text && a.command_bar_visible
        == b.command_bar_visible && a.focused_area == b.focused_area
}

/// How closing the webview at `index` rewrites a window: nothing happens
/// when no webview is visible or the index is out of range; otherwise the
/// webview leaves the list, and when it was the focused one, focus falls to
/// the webview now at its position, or to the first when it was last.
pub open spec fn webviews_closed(w0: Window, w1: Window, index: u32) -> bool {
    let vs = w0.webviews@;
    if first_visible(vs) is None || index >= vs.len() {
        w1 == w0
    } else {
        let removed = vs.remove(index as int);
        window_eq_except_webviews(w0, w1) && w1.webviews@.len() == removed.len() && (forall|k: int|
            0 <= k < removed.len() ==> w1.webviews@[k].uri == removed[k].uri
                && w1.webviews@[k].title == removed[k].title) && if first_visible(vs) == Some(
            index as int,
        ) {
            let nf: int = if index as int >= removed.len() {
                0
            } else {
                index as int
            };
            forall|k: int| 0 <= k < removed.len() ==> w1.webviews@[k].hidden == (k != nf)
        } else {
            forall|k: int| 0 <= k < removed.len() ==> w1.webviews@[k].hidden == removed[k].hidden
        }
    }
}

impl Window {
    /// Close the webview at `index`: it leaves the window, and when it held
    /// focus, focus falls to the webview now at its position, or to the
    /// first when it was last; nothing happens when no webview is visible.
    pub fn close_webview(&mut self, index: u32)
        requires
            old(self).webviews@.len() < 0x1_0000_0000,
        ensures
            webviews_closed(*old(self), *final(self), index),
    {
        let foc = match self.focused_webview_index() {
            Some(f) => f,
            None => {
                proof {
                    lemma_first_visible_none(old(self).webviews@);
                }
                return ;
            },
        };
        proof {
            lemma_first_visible_some(old(self).webviews@, foc as int);
        }
        let is_focused = foc == index;
        if (index as usize) < self.webviews.len() {
            let _removed = self.webviews.remove(index as usize);
            if is_focused {
                if (index as usize) >= self.webviews.len() {
                    self.focus_webview(0);
                } else {
                    self.focus_webview(index);
                }
            }
        }
    }
}

proof fn lemma_first_visible_none(vs: Seq<WebView>)
    requires
        forall|k: int| 0 <= k < vs.len() ==> vs[k].hidden,
    ensures
        first_visible(vs) is None,
{
    lemma_first_visible_none_from(vs, 0);
}

proof fn lemma_first_visible_none_from(vs: Seq<WebView>, i: int)
    requires
        forall|k: int| 0 <= k < vs.len() ==> vs[k].hidden,
        0 <= i,
    ensures
        first_visible_from(vs, i) is None,
    decreases vs.len() - i,
{
    if i < vs.len() {
        lemma_first_visible_none_from(vs, i + 1);
    }
}

proof fn lemma_first_visible_some(vs: Seq<WebView>, f: int)
    requires
        0 <= f < vs.len(),
        !vs[f].hidden,
        forall|k: int| 0 <= k < f ==> vs[k].hidden,
    ensures
        first_visible(vs) == Some(f),
{
    lemma_first_visible_some_from(vs, f, 0);
}

proof fn lemma_first_visible_some_from(vs: Seq<WebView>, f: int, i: int)
    requires
        0 <= i <= f < vs.len(),
        !vs[f].hidden,
        forall|k: int| 0 <= k < f ==> vs[k].hidden,
    ensures
        first_visible_from(vs, i) == Some(f),
    decreases f - i,
{
    if i < f {
        lemma_first_visible_some_from(vs, f, i + 1);
    }
}

} // verus!

verus! {

/// The whole windowing state a host drives: the open windows in order, and
/// which of them holds focus.
#[derive(Debug)]
pub struct Desktop {
    pub windows: Vec<Window>,
    pub focused_window: usize,
}

impl Desktop {
    /// Well-formedness: index ranges fit the unsigned window and webview
    /// indices of the UI surface, and the focus points at a window when any
    /// is open.
    pub open spec fn wf(&self) -> bool {
        self.windows@.len() < 0x1_0000_0000 && (forall|k: int|
            0 <= k < self.windows@.len() ==> self.windows@[k].webviews@.len() < 0x1_0000_0000) && (
        self.windows@.len() == 0 ==> self.focused_window == 0) && (self.windows@.len() > 0
            ==> self.focused_window < self.windows@.len())
    }

    /// An empty desktop: no windows.
    pub fn new() -> (r: Desktop)
        ensures
            r.wf(),
            r.windows@.len() == 0,
    {
        Desktop { windows: Vec::new(), focused_window: 0 }
    }
}

/// Open a new window showing `uri`, focus it, and yield its index.
pub fn open(d: &mut Desktop, uri: Option<&str>) -> (r: u32)
    requires
        old(d).wf(),
        old(d).windows@.len() + 1 < 0x1_0000_0000,
    ensures
        final(d).wf(),
        r == old(d).windows@.len(),
        final(d).windows@.len() == old(d).windows@.len() + 1,
        forall|k: int| 0 <= k < old(d).windows@.len() ==> final(d).windows@[k] == old(d).windows@[k],
        final(d).windows@.last().title@ == crate::WEBKITTEN_TITLE@,
        final(d).windows@.last().webviews@.len() == 1,
        final(d).windows@.last().webviews@[0].uri@ == match uri {
            Some(u) => u@,
            None => Seq::<char>::empty(),
        },
        !final(d).windows@.last().webviews@[0].hidden,
        final(d).focused_window == old(d).windows@.len(),
{
    let index = d.windows.len();
    let mut w = Window::new(crate::WEBKITTEN_TITLE);
    match uri {
        Some(u) => w.add_webview(u),
        None => w.add_webview(""),
    }
    proof {
        reveal_strlit("");
        assert(""@ =~= Seq::<char>::empty());
    }
    d.windows.push(w);
    d.focused_window = index;
    index as u32
}

/// Close the window at `window_index`: it leaves the list, the windows
/// after it shift down by one, and when it held focus, focus falls to the
/// first window; an index out of range changes nothing.
pub fn close(d: &mut Desktop, window_index: u32)
    requires
        old(d).wf(),
    ensures
        final(d).wf(),
        window_index < old(d).windows@.len() ==> final(d).windows@ == old(d).windows@.remove(
            window_index as int,
        ) && final(d).focused_window == (if old(d).focused_window > window_index as int {
            (old(d).focused_window - 1) as usize
        } else if old(d).focused_window == window_index as int {
            0 as usize
        } else {
            old(d).focused_window
        }),
        window_index >= old(d).windows@.len() ==> *final(d) == *old(d),
{
    if (window_index as usize) < d.windows.len() {
        let _removed = d.windows.remove(window_index as usize);
        if d.focused_window > window_index as usize {
            d.focused_window = d.focused_window - 1;
        } else if d.focused_window == window_index as usize {
            d.focused_window = 0;
        }
    }
}

/// Focus the window at `window_index`; an index out of range changes
/// nothing.
pub fn focus(d: &mut Desktop, window_index: u32)
    requires
        old(d).wf(),
    ensures
        final(d).wf(),
        final(d).windows@ == old(d).windows@,
        final(d).focused_window == (if window_index < old(d).windows@.len() {
            window_index as usize
        } else {
            old(d).focused_window
        }),
{
    if (window_index as usize) < d.windows.len() {
        d.focused_window = window_index as usize;
    }
}

/// The index of the focused window, or `None` when no window is open.
pub fn focused_index(d: &Desktop) -> (r: Option<u32>)
    requires
        d.wf(),
    ensures
        match r {
            Some(i) => d.windows@.len() > 0 && i == d.focused_window,
            None => d.windows@.len() == 0,
        },
{
    if d.windows.len() == 0 {
        None
    } else {
        Some(d.focused_window as u32)
    }
}

} // verus!

verus! {

/// Whether the window lists of `a` and `b` agree everywhere but at `idx`.
pub open spec fn windows_eq_except(a: Seq<Window>, b: Seq<Window>, idx: int) -> bool {
    a.len() == b.len() && forall|k: int| 0 <= k < a.len() && k != idx ==> a[k] == b[k]
}

/// Set the visibility of the window at `window_index`; an index out of
/// range changes nothing.
pub fn toggle(d: &mut Desktop, window_index: u32, visible: bool)
    requires
        old(d).wf(),
    ensures
        final(d).wf(),
        final(d).focused_window == old(d).focused_window,
        window_index < old(d).windows@.len() ==> windows_eq_except(
            old(d).windows@,
            final(d).windows@,
            window_index as int,
        ) && final(d).windows@[window_index as int] == (Window {
            visible,
            ..old(d).windows@[window_index as int]
        }),
        window_index >= old(d).windows@.len() ==> *final(d) == *old(d),
{
    if (window_index as usize) < d.windows.len() {
        let mut w = d.windows.remove(window_index as usize);
        w.visible = visible;
        d.windows.insert(window_index as usize, w);
        proof {
            assert(windows_eq_except(old(d).windows@, d.windows@, window_index as int));
        }
    }
}

/// The title of the window at `window_index`, or the empty string for an
/// index out of range.
pub fn title(d: &Desktop, window_index: u32) -> (r: String)
    ensures
        r@ == if window_index < d.windows@.len() {
            d.windows@[window_index as int].title@
        } else {
            Seq::<char>::empty()
        },
{
    if (window_index as usize) < d.windows.len() {
        d.windows[window_index as usize].title.clone()
    } else {
        String::new()
    }
}

/// Set the title of the window at `window_index`; an index out of range
/// changes nothing.
pub fn set_title(d: &mut Desktop, window_index: u32, title: &str)
    requires
        old(d).wf(),
    ensures
        final(d).wf(),
        final(d).focused_window == old(d).focused_window,
        window_index < old(d).windows@.len() ==> windows_eq_except(
            old(d).windows@,
            final(d).windows@,
            window_index as int,
        ) && final(d).windows@[window_index as int].title@ == title@ && window_eq_except_title(
            old(d).windows@[window_index as int],
            final(d).windows@[window_index as int],
        ),
        window_index >= old(d).windows@.len() ==> *final(d) == *old(d),
{
    if (window_index as usize) < d.windows.len() {
        let mut w = d.windows.remove(window_index as usize);
        w.title = title.to_owned();
        d.windows.insert(window_index as usize, w);
        proof {
            assert(windows_eq_except(old(d).windows@, d.windows@, window_index as int));
        }
    }
}

/// Whether `a` and `b` agree on everything but their title.
pub open spec fn window_eq_except_title(a: Window, b: Window) -> bool {
    a.webviews == b.webviews && a.visible == b.visible && a.width == b.width && a.height == b.height
        && a.command_field_text == b.command_field_text && a.command_bar_visible
        == b.command_bar_visible && a.focused_area == b.focused_area
}

/// Resize the window at `window_index`; an index out of range changes
/// nothing.
pub fn resize(d: &mut Desktop, window_index: u32, width: u32, height: u32)
    requires
        old(d).wf(),
    ensures
        final(d).wf(),
        final(d).focused_window == old(d).focused_window,
        window_index < old(d).windows@.len() ==> windows_eq_except(
            old(d).windows@,
            final(d).windows@,
            window_index as int,
        ) && final(d).windows@[window_index as int] == (Window {
            width,
            height,
            ..old(d).windows@[window_index as int]
        }),
        window_index >= old(d).windows@.len() ==> *final(d) == *old(d),
{
    if (window_index as usize) < d.windows.len() {
        let mut w = d.windows.remove(window_index as usize);
        w.width = width;
        w.height = height;
        d.windows.insert(window_index as usize, w);
        proof {
            assert(windows_eq_except(old(d).windows@, d.windows@, window_index as int));
        }
    }
}

/// Move keyboard focus to an area of the window at `window_index`; moving it
/// to the command bar also makes the bar visible. An index out of range
/// changes nothing.
pub fn focus_area(d: &mut Desktop, window_index: u32, area: WindowArea)
    requires
        old(d).wf(),
    ensures
        final(d).wf(),
        final(d).focused_window == old(d).focused_window,
        window_index < old(d).windows@.len() ==> windows_eq_except(
            old(d).windows@,
            final(d).windows@,
            window_index as int,
        ) && final(d).windows@[window_index as int] == (Window {
            focused_area: area,
            command_bar_visible: (area == WindowArea::CommandBar || old(
                d,
            ).windows@[window_index as int].command_bar_visible),
            ..old(d).windows@[window_index as int]
        }),
        window_index >= old(d).windows@.len() ==> *final(d) == *old(d),
{
    if (window_index as usize) < d.windows.len() {
        let mut w = d.windows.remove(window_index as usize);
        match area {
            WindowArea::CommandBar => {
                w.command_bar_visible = true;
                w.focused_area = WindowArea::CommandBar;
            },
            WindowArea::WebView => {
                w.focused_area = WindowArea::WebView;
            },
        }
        d.windows.insert(window_index as usize, w);
        proof {
            assert(windows_eq_except(old(d).windows@, d.windows@, window_index as int));
        }
    }
}

/// The command bar text of the window at `window_index`, or the empty
/// string for an index out of range.
pub fn command_field_text(d: &Desktop, window_index: u32) -> (r: String)
    ensures
        r@ == if window_index < d.windows@.len() {
            d.windows@[window_index as int].command_field_text@
        } else {
            Seq::<char>::empty()
        },
{
    if (window_index as usize) < d.windows.len() {
        d.windows[window_index as usize].command_field_text.clone()
    } else {
        String::new()
    }
}

/// Set the command bar text of the window at `window_index`; an index out
/// of range changes nothing.
pub fn set_command_field_text(d: &mut Desktop, window_index: u32, text: &str)
    requires
        old(d).wf(),
    ensures
        final(d).wf(),
        final(d).focused_window == old(d).focused_window,
        window_index < old(d).windows@.len() ==> windows_eq_except(
            old(d).windows@,
            final(d).windows@,
            window_index as int,
        ) && final(d).windows@[window_index as int].command_field_text@ == text@
            && window_eq_except_field_text(
            old(d).windows@[window_index as int],
            final(d).windows@[window_index as int],
        ),
        window_index >= old(d).windows@.len() ==> *final(d) == *old(d),
{
    if (window_index as usize) < d.windows.len() {
        let mut w = d.windows.remove(window_index as usize);
        w.command_field_text = text.to_owned();
        d.windows.insert(window_index as usize, w);
        proof {
            assert(windows_eq_except(old(d).windows@, d.windows@, window_index as int));
        }
    }
}

/// Whether `a` and `b` agree on everything but their command bar text.
pub open spec fn window_eq_except_field_text(a: Window, b: Window) -> bool {
    a.title == b.title && a.webviews == b.webviews && a.visible == b.visible && a.width == b.width
        && a.height == b.height && a.command_bar_visible == b.command_bar_visible && a.focused_area
        == b.focused_area
}

/// Whether the command bar of the window at `window_index` is visible;
/// `false` for an index out of range.
pub fn command_field_visible(d: &Desktop, window_index: u32) -> (r: bool)
    ensures
        r == (window_index < d.windows@.len() && d.windows@[window_index as int].command_bar_visible),
{
    if (window_index as usize) < d.windows.len() {
        d.windows[window_index as usize].command_bar_visible
    } else {
        false
    }
}

/// Show or hide the command bar of the window at `window_index`; an index
/// out of range changes nothing.
pub fn set_command_field_visible(d: &mut Desktop, window_index: u32, visible: bool)
    requires
        old(d).wf(),
    ensures
        final(d).wf(),
        final(d).focused_window == old(d).focused_window,
        window_index < old(d).windows@.len() ==> windows_eq_except(
            old(d).windows@,
            final(d).windows@,
            window_index as int,
        ) && final(d).windows@[window_index as int] == (Window {
            command_bar_visible: visible,
            ..old(d).windows@[window_index as int]
        }),
        window_index >= old(d).windows@.len() ==> *final(d) == *old(d),
{
    if (window_index as usize) < d.windows.len() {
        let mut w = d.windows.remove(window_index as usize);
        w.command_bar_visible = visible;
        d.windows.insert(window_index as usize, w);
        proof {
            assert(windows_eq_except(old(d).windows@, d.windows@, window_index as int));
        }
    }
}

/// Open a new webview showing `uri` in the window at `window_index` and
/// focus it; an index out of range changes nothing.
pub fn open_webview(d: &mut Desktop, window_index: u32, uri: Option<&str>)
    requires
        old(d).wf(),
        window_index < old(d).windows@.len() ==> old(d).windows@[window_index as int].webviews@.len()
            + 1 < 0x1_0000_0000,
    ensures
        final(d).wf(),
        final(d).focused_window == old(d).focused_window,
        window_index < old(d).windows@.len() ==> windows_eq_except(
            old(d).windows@,
            final(d).windows@,
            window_index as int,
        ) && ({
            let w0 = old(d).windows@[window_index as int];
            let w1 = final(d).windows@[window_index as int];
            w1.webviews@.len() == w0.webviews@.len() + 1 && w1.webviews@.last().uri@ == match uri {
                Some(u) => u@,
                None => Seq::<char>::empty(),
            } && !w1.webviews@.last().hidden && (forall|k: int|
                0 <= k < w0.webviews@.len() ==> w1.webviews@[k].hidden) && w1.title == w0.title
        }),
        window_index >= old(d).windows@.len() ==> *final(d) == *old(d),
{
    if (window_index as usize) < d.windows.len() {
        let mut w = d.windows.remove(window_index as usize);
        match uri {
            Some(u) => w.add_webview(u),
            None => w.add_webview(""),
        }
        proof {
            reveal_strlit("");
            assert(""@ =~= Seq::<char>::empty());
        }
        d.windows.insert(window_index as usize, w);
        proof {
            assert(windows_eq_except(old(d).windows@, d.windows@, window_index as int));
        }
    }
}

/// Close the webview at `webview_index` of the window at `window_index`,
/// with focus falling back as `webviews_closed` says; indices out of range
/// change nothing.
pub fn close_webview(d: &mut Desktop, window_index: u32, webview_index: u32)
    requires
        old(d).wf(),
    ensures
        final(d).wf(),
        final(d).focused_window == old(d).focused_window,
        window_index < old(d).windows@.len() ==> windows_eq_except(
            old(d).windows@,
            final(d).windows@,
            window_index as int,
        ) && webviews_closed(
            old(d).windows@[window_index as int],
            final(d).windows@[window_index as int],
            webview_index,
        ),
        window_index >= old(d).windows@.len() ==> *final(d) == *old(d),
{
    if (window_index as usize) < d.windows.len() {
        let mut w = d.windows.remove(window_index as usize);
        w.close_webview(webview_index);
        d.windows.insert(window_index as usize, w);
        proof {
            assert(windows_eq_except(old(d).windows@, d.windows@, window_index as int));
        }
    }
}

/// Show exactly the webview at `webview_index` of the window at
/// `window_index`; indices out of range change nothing.
pub fn focus_webview(d: &mut Desktop, window_index: u32, webview_index: u32)
    requires
        old(d).wf(),
    ensures
        final(d).wf(),
        final(d).focused_window == old(d).focused_window,
        window_index < old(d).windows@.len() ==> windows_eq_except(
            old(d).windows@,
            final(d).windows@,
            window_index as int,
        ) && ({
            let w0 = old(d).windows@[window_index as int];
            let w1 = final(d).windows@[window_index as int];
            w1.webviews@.len() == w0.webviews@.len() && (webview_index < w0.webviews@.len()
                ==> forall|k: int|
                0 <= k < w1.webviews@.len() ==> w1.webviews@[k].hidden == (k != webview_index as int))
                && (webview_index >= w0.webviews@.len() ==> w1 == w0) && window_eq_except_webviews(
                w0,
                w1,
            )
        }),
        window_index >= old(d).windows@.len() ==> *final(d) == *old(d),
{
    if (window_index as usize) < d.windows.len() {
        let mut w = d.windows.remove(window_index as usize);
        w.focus_webview(webview_index);
        d.windows.insert(window_index as usize, w);
        proof {
            assert(windows_eq_except(old(d).windows@, d.windows@, window_index as int));
        }
    }
}

/// The index of the visible webview of the window at `window_index`, or
/// `None` when there is none or the index is out of range.
pub fn focused_webview_index(d: &Desktop, window_index: u32) -> (r: Option<u32>)
    requires
        d.wf(),
    ensures
        window_index < d.windows@.len() ==> r == match first_visible(
            d.windows@[window_index as int].webviews@,
        ) {
            Some(i) => Some(i as u32),
            None => None::<u32>,
        },
        window_index >= d.windows@.len() ==> r is None,
{
    if (window_index as usize) < d.windows.len() {
        match d.windows[window_index as usize].focused_webview_index() {
            Some(f) => {
                proof {
                    lemma_first_visible_some(d.windows@[window_index as int].webviews@, f as int);
                }
                Some(f)
            },
            None => {
                proof {
                    lemma_first_visible_none(d.windows@[window_index as int].webviews@);
                }
                None
            },
        }
    } else {
        None
    }
}

/// How many webviews the window at `window_index` holds; zero for an index
/// out of range.
pub fn webview_count(d: &Desktop, window_index: u32) -> (r: u32)
    requires
        d.wf(),
    ensures
        r == if window_index < d.windows@.len() {
            d.windows@[window_index as int].webviews@.len()
        } else {
            0
        },
{
    if (window_index as usize) < d.windows.len() {
        d.windows[window_index as usize].webviews.len() as u32
    } else {
        0
    }
}

/// How many windows are open.
pub fn window_count(d: &Desktop) -> (r: u32)
    requires
        d.wf(),
    ensures
        r == d.windows@.len(),
{
    d.windows.len() as u32
}

} // verus!
