use fabric_ui::button::ButtonControl;
use fabric_ui::drawing::DrawCommand;
use fabric_ui::drawing::DrawCtx;
use fabric_ui::template::TemplateControl;
use fabric_ui::uid::UidGenerator;
use fabric_ui::widget::WidgetBox;
use fabric_ui::window::WindowControl;

#[test]
fn a_forked_context_translates_and_joins_in_order() {
    let mut ctx = DrawCtx::new();
    ctx.fill_rect(1, 2, 3, 4, 0xAABBCCDD);
    let mut child = ctx.fork(100, 200);
    child.fill_rect(1, 2, 3, 4, 0x11223344);
    ctx.join(child);
    assert_eq!(ctx.commands.len(), 2);
    match &ctx.commands[0] {
        DrawCommand::FillRect { x, y, .. } => assert_eq!((*x, *y), (1, 2)),
        _ => panic!("expected a rectangle"),
    }
    match &ctx.commands[1] {
        DrawCommand::FillRect { x, y, color, .. } => {
            assert_eq!((*x, *y), (101, 202));
            assert_eq!(*color, 0x11223344);
        },
        _ => panic!("expected a rectangle"),
    }
}

#[test]
fn a_button_draws_its_face_then_its_label_and_settles() {
    let mut generator = UidGenerator::new();
    let mut b = ButtonControl::new(10, 20, 80, 24, String::from("go"), &mut generator);
    assert!(b.needs_redraw());
    let mut ctx = DrawCtx::new();
    b.draw(&mut ctx);
    assert!(!b.needs_redraw());
    assert_eq!(ctx.commands.len(), 2);
    match &ctx.commands[0] {
        DrawCommand::FillRoundRect { x, y, width, height, .. } => {
            assert_eq!((*x, *y, *width, *height), (10, 20, 80, 24));
        },
        _ => panic!("expected the button face"),
    }
    match &ctx.commands[1] {
        DrawCommand::Text { text, .. } => assert_eq!(text.as_str(), "go"),
        _ => panic!("expected the label"),
    }
}

#[test]
fn a_window_paints_chrome_before_children() {
    let mut generator = UidGenerator::new();
    let mut w = WindowControl::new(
        WidgetBox::Template(TemplateControl::new(0, 0, 10, 10)),
        &mut generator,
        0,
    );
    let mut ctx = DrawCtx::new();
    w.draw(&mut ctx, 0);
    match &ctx.commands[0] {
        DrawCommand::FillRoundRect { x, y, width, height, .. } => {
            assert_eq!((*x, *y, *width, *height), (16, 16, 800, 600));
        },
        _ => panic!("expected the window background"),
    }
}
