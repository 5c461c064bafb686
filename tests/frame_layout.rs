use ui_host::frame::{layout_sections, TextSection, FONT_SIZE};
use ui_host::widgets::{Root, Text, View, Widget};

fn positions(sections: &[TextSection]) -> Vec<(String, u64, u64, u32)> {
    sections.iter().map(|s| (s.text.clone(), s.x, s.y, s.scale)).collect()
}

#[test]
fn empty_view_queues_no_text() {
    let v = View::new();
    assert!(v.frame_sections().is_empty());
}

#[test]
fn hello_world_at_font_size_32() {
    let mut v = View::new();
    v.add_child(Widget::Text(Text::new("Hello")));
    v.add_child(Widget::Text(Text::new("World")));
    let s = v.frame_sections();
    assert_eq!(FONT_SIZE, 32);
    assert_eq!(
        positions(&s),
        vec![("Hello".to_string(), 0, 0, 32), ("World".to_string(), 0, 32, 32)]
    );
}

#[test]
fn non_text_widgets_take_no_room() {
    let mut v = View::new();
    v.add_child(Widget::Root(Root::new()));
    v.add_child(Widget::Text(Text::new("a")));
    v.add_child(Widget::Root(Root::new()));
    v.add_child(Widget::Text(Text::new("b")));
    let s = v.frame_sections();
    assert_eq!(positions(&s), vec![("a".to_string(), 0, 0, 32), ("b".to_string(), 0, 32, 32)]);
}

#[test]
fn widget_i_stacks_at_i_times_font_size() {
    let children: Vec<Widget> = (0..5).map(|i| Widget::Text(Text::new(&format!("w{}", i)))).collect();
    let s = layout_sections(&children, 20);
    assert_eq!(s.len(), 5);
    for (i, sec) in s.iter().enumerate() {
        assert_eq!(sec.text, format!("w{}", i));
        assert_eq!(sec.x, 0);
        assert_eq!(sec.y, i as u64 * 20);
        assert_eq!(sec.scale, 20);
    }
}

#[test]
fn rendering_twice_gives_the_same_sections() {
    let mut v = View::new();
    v.add_child(Widget::Text(Text::new("Hello")));
    v.add_child(Widget::Root(Root::new()));
    v.add_child(Widget::Text(Text::new("World")));
    let a = v.frame_sections();
    let b = v.frame_sections();
    assert_eq!(positions(&a), positions(&b));
}

#[test]
fn root_text_sections_use_given_size() {
    let mut root = Root::new();
    root.add_child(Widget::Text(Text::new("x")));
    root.add_child(Widget::Text(Text::new("y")));
    let s = root.text_sections(10);
    assert_eq!(positions(&s), vec![("x".to_string(), 0, 0, 10), ("y".to_string(), 0, 10, 10)]);
}
