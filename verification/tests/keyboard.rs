use term_chart::ui::keyboard::KeyboardListener;

#[test]
fn listen_test() {
    KeyboardListener::new().add_listener('q', |_: char| {});
}
