use search::state::{App, Message};
use search::style::{ModernButton, ModernColor};
use search::view::{
    choose_placeholder, empty_message, historial_text, historial_view, icon, itag, show_historial,
    submit_button_style, tag, HistorialView,
};

const PLACEHOLDERS: [&str; 3] = [
    "Search anything...",
    "Give me your question...",
    "Let step on that errors...",
];

#[test]
fn empty_history_renders_the_placeholder_message() {
    let app = App::new();
    let v = app.view();
    match v.historial {
        HistorialView::EmptyMessage(e) => {
            assert_eq!(e.message, "You didn't searched anything yet...");
            assert_eq!(e.color, ModernColor::Custom(82, 81, 90));
        }
        HistorialView::Historial(_) => panic!("empty history must render the placeholder"),
    }
}

#[test]
fn non_empty_history_renders_one_row_per_entry_in_order() {
    let mut app = App::new();
    app.searches = vec!["  b  ".to_string(), "a".to_string()];
    let v = app.view();
    match v.historial {
        HistorialView::Historial(rows) => {
            assert_eq!(rows.len(), 2);
            assert_eq!(rows[0].text, "b");
            assert_eq!(rows[0].id, 0);
            assert_eq!(rows[1].text, "a");
            assert_eq!(rows[1].id, 1);
        }
        HistorialView::EmptyMessage(_) => panic!("non-empty history must render rows"),
    }
}

#[test]
fn history_rows_carry_the_remove_button_for_their_position() {
    let rows = show_historial(&vec!["x".to_string(), "y".to_string(), "z".to_string()]);
    for (i, row) in rows.iter().enumerate() {
        assert_eq!(row.id, i);
        assert_eq!(row.remove_style, ModernButton::Text);
        assert_eq!(row.remove_icon, icon('\u{F62A}', 18));
        assert_eq!(row.text_color, ModernColor::Custom(160, 160, 160));
    }
}

#[test]
fn historial_view_switches_exactly_on_emptiness() {
    assert!(matches!(
        historial_view(&vec![]),
        HistorialView::EmptyMessage(_)
    ));
    assert!(matches!(
        historial_view(&vec!["q".to_string()]),
        HistorialView::Historial(_)
    ));
}

#[test]
fn submit_style_is_secondary_exactly_while_blank() {
    assert_eq!(submit_button_style(""), ModernButton::Secondary);
    assert_eq!(submit_button_style("   "), ModernButton::Secondary);
    assert_eq!(submit_button_style(" q "), ModernButton::Principal);

    let mut app = App::new();
    assert_eq!(app.view().submit_style, ModernButton::Secondary);
    app.update(Message::QueryChange("rust".to_string())).unwrap();
    assert_eq!(app.view().submit_style, ModernButton::Principal);
}

#[test]
fn placeholder_is_always_one_of_the_three_prompts() {
    for _ in 0..32 {
        let p = choose_placeholder();
        assert!(PLACEHOLDERS.contains(&p.as_str()));
    }
    let v = App::new().view();
    assert!(PLACEHOLDERS.contains(&v.placeholder.as_str()));
}

#[test]
fn view_binds_the_query_and_fixed_chrome() {
    let mut app = App::new();
    app.update(Message::QueryChange("  rust  ".to_string())).unwrap();
    let v = app.view();
    assert_eq!(v.query, "  rust  ");
    assert_eq!(v.title.heading, "Capy");
    assert_eq!(v.title.heading_color, ModernColor::Custom(252, 187, 150));
    assert_eq!(v.title.heading_size, 75);
    assert_eq!(v.title.subtitle, "Programmer search engine");
    assert_eq!(v.title.subtitle_size, 18);
    assert_eq!(v.submit_icon, icon('\u{F144}', 16));
}

#[test]
fn view_lists_the_three_fixed_tags() {
    let v = App::new().view();
    assert_eq!(v.tags.len(), 3);
    let expected = [
        ("images/stack-overflow.png", (252, 187, 150), "overflow"),
        ("images/stack-exchange.png", (175, 197, 226), "exchange"),
        ("images/geek-for-geeks.png", (96, 177, 121), "geeks"),
    ];
    for (t, (path, (r, g, b), name)) in v.tags.iter().zip(expected) {
        assert_eq!(t.image_path, path);
        assert_eq!(t.style, ModernButton::Tag(r, g, b));
        match &t.message {
            Message::TagSelected(n) => assert_eq!(n, name),
            _ => panic!("a tag button must fire a tag selection"),
        }
    }
}

#[test]
fn tag_builders_carry_content_style_and_message() {
    let t = tag("label", (1, 2, 3), Message::TagSelected("label".to_string()));
    assert_eq!(t.content, "label");
    assert_eq!(t.style, ModernButton::Tag(1, 2, 3));
    let t = itag("images/x.png", (4, 5, 6), Message::OnPressing);
    assert_eq!(t.image_path, "images/x.png");
    assert_eq!(t.style, ModernButton::Tag(4, 5, 6));
}

#[test]
fn row_and_placeholder_builders_keep_their_inputs() {
    let row = historial_text("already trimmed", 7);
    assert_eq!(row.text, "already trimmed");
    assert_eq!(row.id, 7);
    let e = empty_message("nothing here");
    assert_eq!(e.message, "nothing here");
}
