use term_chart::ui::element::Element;
use term_chart::ui::style::Styles;

#[test]
fn element_default_test() {
    assert_eq!(
        Element {
            character: 'c',
            styles: Styles::normal(),
        },
        Element::normal('c')
    );
}

#[test]
fn element_blank_test() {
    assert_eq!(
        Element {
            character: ' ',
            styles: Styles::normal(),
        },
        Element::blank()
    );
}
