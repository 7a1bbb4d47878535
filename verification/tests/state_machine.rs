use search::palette::ModernTheme;
use search::state::{App, Effect, Message, UpdateError};

#[test]
fn initial_state_is_dark_empty_and_ready() {
    let app = App::new();
    assert_eq!(app.theme(), ModernTheme::Dark);
    assert!(!app.toggler);
    assert_eq!(app.inputs.query, "");
    assert!(app.inputs.enabled);
    assert!(app.searches.is_empty());
}

#[test]
fn title_names_the_application() {
    let app = App::new();
    assert_eq!(app.title(), "Capy search");
}

#[test]
fn submit_trims_and_keeps_query_field() {
    let mut app = App::new();
    app.update(Message::QueryChange("  hello  ".to_string())).unwrap();
    app.update(Message::OnPressing).unwrap();
    assert_eq!(app.searches, vec!["hello".to_string()]);
    assert_eq!(app.inputs.query, "  hello  ");
}

#[test]
fn submit_of_empty_query_changes_nothing() {
    let mut app = App::new();
    app.update(Message::OnPressing).unwrap();
    assert!(app.searches.is_empty());

    app.update(Message::SetSearch("kept".to_string())).unwrap();
    app.update(Message::OnPressing).unwrap();
    app.update(Message::QueryChange(String::new())).unwrap();
    app.update(Message::OnPressing).unwrap();
    assert_eq!(app.searches, vec!["kept".to_string()]);
}

#[test]
fn submit_of_whitespace_only_query_changes_nothing() {
    let mut app = App::new();
    app.update(Message::SetSearch("kept".to_string())).unwrap();
    app.update(Message::OnPressing).unwrap();
    app.update(Message::QueryChange("   ".to_string())).unwrap();
    app.update(Message::OnPressing).unwrap();
    assert_eq!(app.searches, vec!["kept".to_string()]);
    assert_eq!(app.inputs.query, "   ");
}

#[test]
fn unicode_whitespace_counts_as_blank() {
    let mut app = App::new();
    app.update(Message::QueryChange("\u{3000}\t\n\u{00A0}".to_string())).unwrap();
    app.update(Message::OnPressing).unwrap();
    assert!(app.searches.is_empty());
}

#[test]
fn repeated_submit_keeps_duplicates() {
    let mut app = App::new();
    app.update(Message::QueryChange("a".to_string())).unwrap();
    app.update(Message::OnPressing).unwrap();
    app.update(Message::OnPressing).unwrap();
    assert_eq!(app.searches, vec!["a".to_string(), "a".to_string()]);
}

#[test]
fn newest_submission_goes_to_the_front() {
    let mut app = App::new();
    app.update(Message::QueryChange("first".to_string())).unwrap();
    app.update(Message::OnPressing).unwrap();
    app.update(Message::QueryChange("second".to_string())).unwrap();
    app.update(Message::OnPressing).unwrap();
    assert_eq!(app.searches, vec!["second".to_string(), "first".to_string()]);
}

#[test]
fn remove_search_drops_exactly_the_named_entry() {
    let mut app = App::new();
    app.searches = vec!["a".to_string(), "b".to_string()];
    let effect = app.update(Message::RemoveSearch(0)).unwrap();
    assert_eq!(effect, Effect::RemovalReport("a".to_string()));
    assert_eq!(app.searches, vec!["b".to_string()]);
}

#[test]
fn remove_search_keeps_the_order_of_the_rest() {
    let mut app = App::new();
    app.searches = vec!["a".to_string(), "b".to_string(), "c".to_string(), "d".to_string()];
    app.update(Message::RemoveSearch(1)).unwrap();
    assert_eq!(app.searches, vec!["a".to_string(), "c".to_string(), "d".to_string()]);
}

#[test]
fn remove_search_out_of_range_errs_and_keeps_state() {
    let mut app = App::new();
    app.searches = vec!["a".to_string(), "b".to_string()];
    let r = app.update(Message::RemoveSearch(2));
    assert_eq!(r, Err(UpdateError::RemoveOutOfRange));
    assert_eq!(app.searches, vec!["a".to_string(), "b".to_string()]);

    let r = App::new().update(Message::RemoveSearch(0));
    assert_eq!(r, Err(UpdateError::RemoveOutOfRange));
}

#[test]
fn theme_toggle_selects_light_and_back() {
    let mut app = App::new();
    app.update(Message::OnChangingTheme(true)).unwrap();
    assert_eq!(app.theme(), ModernTheme::Light);
    assert!(app.toggler);
    app.update(Message::OnChangingTheme(false)).unwrap();
    assert_eq!(app.theme(), ModernTheme::Dark);
    assert!(!app.toggler);
}

#[test]
fn theme_toggle_round_trip_restores_the_dark_palette() {
    let mut app = App::new();
    let initial = app.palette();
    app.update(Message::OnChangingTheme(true)).unwrap();
    assert_ne!(app.palette(), initial);
    app.update(Message::OnChangingTheme(false)).unwrap();
    assert_eq!(app.palette(), initial);
}

#[test]
fn query_change_and_set_search_apply_identically() {
    let mut a = App::new();
    let mut b = App::new();
    a.update(Message::QueryChange("query".to_string())).unwrap();
    b.update(Message::SetSearch("query".to_string())).unwrap();
    assert_eq!(a.inputs.query, b.inputs.query);
    assert_eq!(a.inputs.query, "query");
}

#[test]
fn tag_selection_reports_the_tag_and_keeps_state() {
    let mut app = App::new();
    app.update(Message::QueryChange("q".to_string())).unwrap();
    let effect = app.update(Message::TagSelected("overflow".to_string())).unwrap();
    assert_eq!(effect, Effect::TagReport("overflow".to_string()));
    assert_eq!(app.inputs.query, "q");
    assert!(app.searches.is_empty());
    assert_eq!(app.theme(), ModernTheme::Dark);
}

#[test]
fn trim_drops_exactly_the_outer_whitespace() {
    assert_eq!(search::trim::trim("  hello  "), "hello");
    assert_eq!(search::trim::trim("a b"), "a b");
    assert_eq!(search::trim::trim("\u{2000}x\u{2009} y\u{3000}"), "x\u{2009} y");
    assert_eq!(search::trim::trim(""), "");
    assert_eq!(search::trim::trim(" \t\r\n"), "");
}
