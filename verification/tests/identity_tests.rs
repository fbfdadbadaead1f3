use fabric_ui::button::ButtonControl;
use fabric_ui::input::InputControl;
use fabric_ui::label::TextLabelControl;
use fabric_ui::pod::WidgetPod;
use fabric_ui::template::TemplateControl;
use fabric_ui::uid::UidGenerator;
use fabric_ui::uid::gen_uid;
use fabric_ui::widget::WidgetBox;

#[test]
fn identifiers_issue_strictly_increasingly() {
    let mut generator = UidGenerator::new();
    let a = gen_uid(&mut generator);
    let b = gen_uid(&mut generator);
    let c = gen_uid(&mut generator);
    assert!(a < b && b < c);
}

#[test]
fn duplicating_a_button_mints_a_new_identity() {
    let mut generator = UidGenerator::new();
    let b = ButtonControl::new(1, 2, 30, 40, String::from("ok"), &mut generator);
    let original = b.uid;
    let copy = b.duplicate(&mut generator);
    assert_ne!(copy.uid, b.uid);
    assert_eq!(b.uid, original);
    assert_eq!(copy.text, b.text);
    assert_eq!(copy.pos, b.pos);
    assert!(copy.need_update);
}

#[test]
fn duplicating_a_label_and_an_input_mints_new_identities() {
    let mut generator = UidGenerator::new();
    let l = TextLabelControl::new(String::from("hi"), &mut generator);
    let l2 = l.duplicate(&mut generator);
    assert_ne!(l2.uid, l.uid);
    assert_eq!(l2.text, l.text);

    let mut i = InputControl::new(0, 0, 10, 10, &mut generator);
    i.set_value(String::from("abc"));
    let i2 = i.duplicate(&mut generator);
    assert_ne!(i2.uid, i.uid);
    assert_eq!(i2.value().as_str(), "abc");
}

#[test]
fn duplicating_a_pod_mints_a_new_slot_identity() {
    let mut generator = UidGenerator::new();
    let pod = WidgetPod::new(
        WidgetBox::Template(TemplateControl::new(0, 0, 5, 5)),
        &mut generator,
    );
    let copy = pod.duplicate(&mut generator);
    assert_ne!(copy.widget_id, pod.widget_id);
    assert_eq!(copy.widget_size, pod.widget_size);
}

#[test]
fn a_pod_identity_is_its_own_not_the_widgets() {
    let mut generator = UidGenerator::new();
    let b = ButtonControl::new(0, 0, 10, 10, String::new(), &mut generator);
    let inner = b.uid;
    let pod = WidgetPod::new(WidgetBox::Button(b), &mut generator);
    assert_ne!(pod.uid(), inner);
}

#[test]
fn a_window_its_pod_and_later_children_never_share_identities() {
    let mut generator = UidGenerator::new();
    let w = WidgetBox::Template(TemplateControl::new(0, 0, 5, 5));
    let mut win = fabric_ui::window::WindowControl::new(w, &mut generator, 0);
    assert_eq!(win.uid, 0);
    assert_eq!(win.children[0].widget_id, 1);
    assert_eq!(generator.next, 2);
    win.add_child(WidgetBox::Template(TemplateControl::new(0, 0, 5, 5)), &mut generator);
    assert_eq!(win.children[1].widget_id, 2);
    assert_eq!(generator.next, 3);
    let later = gen_uid(&mut generator);
    assert_ne!(later, win.uid);
    assert_ne!(later, win.children[0].widget_id);
    assert_ne!(later, win.children[1].widget_id);
}
