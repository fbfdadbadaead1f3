use fabric_ui::button::ButtonControl;
use fabric_ui::drawing::DrawCtx;
use fabric_ui::events::EventCtx;
use fabric_ui::events::EventResult;
use fabric_ui::events::WindowEvent;
use fabric_ui::geometry::AreaBox;
use fabric_ui::template::TemplateControl;
use fabric_ui::traits::TopWidget;
use fabric_ui::traits::Widget;
use fabric_ui::uid::UidGenerator;
use fabric_ui::widget::WidgetBox;
use fabric_ui::window::WindowControl;

fn drive<D, W: Widget<D>>(w: &mut W, data: &mut D, now: u64) -> (EventResult, bool) {
    let mut ctx = EventCtx::new(WindowEvent::MouseMove(5, 5));
    let r = w.event(&mut ctx, data, now);
    let dirty = w.update(data, now);
    (r, dirty)
}

#[test]
fn leaves_satisfy_the_capability_contract() {
    let mut generator = UidGenerator::new();
    let mut b = ButtonControl::new(0, 0, 20, 20, String::new(), &mut generator);
    let (r, dirty) = drive(&mut b, &mut (), 0);
    assert_eq!(r, EventResult::NoBubbling);
    assert!(dirty);
    let area = Widget::<()>::layout(&mut b, AreaBox { left: 0, right: 100, top: 0, down: 100 });
    assert_eq!(area, AreaBox { left: 0, right: 20, top: 0, down: 20 });
}

#[test]
fn a_window_satisfies_the_top_widget_contract() {
    let mut generator = UidGenerator::new();
    let mut w = WindowControl::new(
        WidgetBox::Template(TemplateControl::new(0, 0, 5, 5)),
        &mut generator,
        0,
    );
    assert_eq!(TopWidget::<()>::real_width(&w), 832);
    assert_eq!(TopWidget::<()>::real_height(&w), 632);
    let mut ctx = DrawCtx::new();
    Widget::<()>::draw(&mut w, &mut ctx, &(), 0);
    assert!(!Widget::<()>::update(&w, &(), 0));
    TopWidget::<()>::destroy(&mut w, 10);
    assert!(!TopWidget::<()>::is_destroyed(&w, 200));
    assert!(TopWidget::<()>::is_destroyed(&w, 400));
}
