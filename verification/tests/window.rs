use webkitten::ui::WindowArea;
use webkitten::window::{
    close, close_webview, command_field_text, command_field_visible, focus, focus_area,
    focus_webview, focused_index, focused_webview_index, open, open_webview, resize,
    set_command_field_text, set_command_field_visible, set_title, title, toggle, webview_count,
    window_count, Desktop, WebView, Window,
};

#[test]
fn open_and_focus_windows() {
    let mut d = Desktop::new();
    assert_eq!(None, focused_index(&d));
    let first = open(&mut d, Some("http://one.example"));
    let second = open(&mut d, None);
    assert_eq!(0, first);
    assert_eq!(1, second);
    assert_eq!(2, window_count(&d));
    assert_eq!(Some(second), focused_index(&d));
    focus(&mut d, first);
    assert_eq!(Some(first), focused_index(&d));
    focus(&mut d, 9);
    assert_eq!(Some(first), focused_index(&d));
}

#[test]
fn close_window_shifts_focus() {
    let mut d = Desktop::new();
    open(&mut d, None);
    open(&mut d, None);
    open(&mut d, None);
    focus(&mut d, 2);
    close(&mut d, 1);
    assert_eq!(2, window_count(&d));
    assert_eq!(Some(1), focused_index(&d));
    close(&mut d, 1);
    assert_eq!(Some(0), focused_index(&d));
}

#[test]
fn titles_and_sizes() {
    let mut d = Desktop::new();
    let w = open(&mut d, None);
    assert_eq!("webkitten", title(&d, w));
    set_title(&mut d, w, "hello");
    assert_eq!("hello", title(&d, w));
    assert_eq!("", title(&d, 7));
    resize(&mut d, w, 1024, 768);
    assert_eq!(1024, d.windows[w as usize].width);
    assert_eq!(768, d.windows[w as usize].height);
    toggle(&mut d, w, false);
    assert!(!d.windows[w as usize].visible);
}

#[test]
fn command_bar_state() {
    let mut d = Desktop::new();
    let w = open(&mut d, None);
    set_command_field_text(&mut d, w, ":open");
    assert_eq!(":open", command_field_text(&d, w));
    assert_eq!("", command_field_text(&d, 9));
    set_command_field_visible(&mut d, w, false);
    assert!(!command_field_visible(&d, w));
    focus_area(&mut d, w, WindowArea::CommandBar);
    assert!(command_field_visible(&d, w));
    assert_eq!(WindowArea::CommandBar, d.windows[w as usize].focused_area);
    focus_area(&mut d, w, WindowArea::WebView);
    assert_eq!(WindowArea::WebView, d.windows[w as usize].focused_area);
}

#[test]
fn webviews_focus_and_close() {
    let mut d = Desktop::new();
    let w = open(&mut d, Some("http://one.example"));
    open_webview(&mut d, w, Some("http://two.example"));
    open_webview(&mut d, w, Some("http://three.example"));
    assert_eq!(3, webview_count(&d, w));
    // The newest webview is the visible one.
    assert_eq!(Some(2), focused_webview_index(&d, w));
    focus_webview(&mut d, w, 0);
    assert_eq!(Some(0), focused_webview_index(&d, w));
    // Closing the focused webview focuses the one now in its place.
    close_webview(&mut d, w, 0);
    assert_eq!(2, webview_count(&d, w));
    assert_eq!(Some(0), focused_webview_index(&d, w));
    assert_eq!("http://two.example", d.windows[w as usize].webviews[0].uri);
    // Closing the focused last webview falls back to the first.
    focus_webview(&mut d, w, 1);
    close_webview(&mut d, w, 1);
    assert_eq!(Some(0), focused_webview_index(&d, w));
}

#[test]
fn fresh_window_and_webview_values() {
    let w = Window::new("titled");
    assert_eq!("titled", w.title);
    assert!(w.visible);
    assert_eq!(0, w.webviews.len());
    let v = WebView::new();
    assert_eq!("", v.uri);
    assert!(!v.hidden);
}

#[test]
fn add_webview_hides_older_ones() {
    let mut w = Window::new("t");
    w.add_webview("http://a.example");
    w.add_webview("http://b.example");
    assert!(w.webviews[0].hidden);
    assert!(!w.webviews[1].hidden);
    assert_eq!("http://b.example", w.webviews[1].uri);
}
