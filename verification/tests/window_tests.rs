use fabric_ui::button::ButtonControl;
use fabric_ui::drawing::DrawCtx;
use fabric_ui::geometry::AreaBox;
use fabric_ui::events::EventCtx;
use fabric_ui::events::EventResult;
use fabric_ui::events::HitResult;
use fabric_ui::events::UserEvent;
use fabric_ui::events::WindowEvent;
use fabric_ui::template::TemplateControl;
use fabric_ui::uid::UidGenerator;
use fabric_ui::widget::WidgetBox;
use fabric_ui::window::WindowControl;

fn plain_window(generator: &mut UidGenerator) -> WindowControl {
    WindowControl::new(WidgetBox::Template(TemplateControl::new(0, 0, 10, 10)), generator, 0)
}

fn clicks(events: &[UserEvent]) -> usize {
    events.iter().filter(|e| matches!(e, UserEvent::ControlClicked(_))).count()
}

#[test]
fn hit_test_classifies_chrome_regions() {
    // Content spans [16, 816) by [16, 616); the caption is the top 28 rows,
    // the close button its right-most 46 columns, the minimize button the 46
    // before those.
    let mut generator = UidGenerator::new();
    let mut w = plain_window(&mut generator);
    assert_eq!(w.hit_test(5, 5), HitResult::Nowhere);
    assert_eq!(w.hit_test(100, 20), HitResult::Caption);
    assert_eq!(w.hit_test(780, 20), HitResult::Close);
    assert_eq!(w.hit_test(730, 20), HitResult::MinButton);
    assert_eq!(w.hit_test(100, 100), HitResult::Client);
    assert_eq!(w.hit_test(900, 300), HitResult::Nowhere);
}

#[test]
fn hovering_a_caption_button_raises_the_dirty_flag() {
    let mut generator = UidGenerator::new();
    let mut w = plain_window(&mut generator);
    let mut ctx = DrawCtx::new();
    w.draw(&mut ctx, 0);
    assert!(!w.needs_redraw(0));
    let _ = w.hit_test(780, 20);
    assert!(w.needs_redraw(0));
}

#[test]
fn close_press_destroys_only_after_the_linger_interval() {
    let mut generator = UidGenerator::new();
    let mut w = plain_window(&mut generator);
    let mut ctx = EventCtx::new(WindowEvent::MousePress(780, 20));
    let r = w.emit(&mut ctx, 1_000);
    assert_eq!(r, EventResult::NoBubbling);
    assert!(ctx.user_events.contains(&UserEvent::Quit));
    assert!(!w.is_destroyed(1_000));
    assert!(!w.is_destroyed(1_150));
    assert!(w.is_destroyed(1_350));
}

#[test]
fn destroy_is_idempotent_and_keeps_the_first_timer() {
    let mut generator = UidGenerator::new();
    let mut w = plain_window(&mut generator);
    w.destroy(1_000);
    w.destroy(1_200);
    assert_eq!(w.destroy_time, 1_000);
    assert!(w.is_destroyed(1_350));
}

#[test]
fn a_consuming_child_skips_the_container_chrome() {
    // Child A (a button under the pointer) consumes the mouse move, so the
    // container must not run its own chrome handling for that event: child
    // B's global position stays stale.  A later move outside both children
    // is not consumed, and then the container re-propagates.
    let mut generator = UidGenerator::new();
    let a = ButtonControl::new(0, 0, 700, 500, String::new(), &mut generator);
    let b = ButtonControl::new(500, 400, 10, 10, String::new(), &mut generator);
    let mut w = WindowControl::new(WidgetBox::Button(a), &mut generator, 0);
    w.add_child(WidgetBox::Button(b), &mut generator);

    // Inside child A (its global position starts equal to its own position).
    let mut ctx = EventCtx::new(WindowEvent::MouseMove(10, 10));
    let r = w.emit(&mut ctx, 0);
    assert_eq!(r, EventResult::NoBubbling);
    match &w.children[1].widget {
        WidgetBox::Button(b) => assert_eq!(b.g_pos, (500, 400)),
        _ => panic!("expected a button"),
    }

    // Outside both children: nothing consumes, the chrome re-propagates.
    let mut ctx2 = EventCtx::new(WindowEvent::MouseMove(750, 550));
    let r2 = w.emit(&mut ctx2, 0);
    assert_eq!(r2, EventResult::Bubble);
    match &w.children[1].widget {
        WidgetBox::Button(b) => assert_eq!(b.g_pos, (500 + 16, 400 + 16 + 28)),
        _ => panic!("expected a button"),
    }
}

#[test]
fn every_child_receives_the_event_even_after_one_consumed() {
    // Two overlapping buttons: a press inside both surfaces both clicks.
    let mut generator = UidGenerator::new();
    let a = ButtonControl::new(10, 10, 100, 100, String::new(), &mut generator);
    let a_uid = a.uid;
    let b = ButtonControl::new(10, 10, 100, 100, String::new(), &mut generator);
    let b_uid = b.uid;
    let mut w = WindowControl::new(WidgetBox::Button(a), &mut generator, 0);
    w.add_child(WidgetBox::Button(b), &mut generator);
    let mut ctx = EventCtx::new(WindowEvent::MousePress(20, 20));
    let _ = w.emit(&mut ctx, 0);
    assert!(ctx.user_events.contains(&UserEvent::ControlClicked(a_uid)));
    assert!(ctx.user_events.contains(&UserEvent::ControlClicked(b_uid)));
}

#[test]
fn a_quick_down_then_up_synthesizes_exactly_one_press() {
    let mut generator = UidGenerator::new();
    let b = ButtonControl::new(10, 10, 100, 40, String::new(), &mut generator);
    let b_uid = b.uid;
    let mut w = WindowControl::new(WidgetBox::Button(b), &mut generator, 0);

    let mut down = EventCtx::new(WindowEvent::MouseDown(20, 20));
    let _ = w.emit(&mut down, 1_000);
    assert_eq!(clicks(&down.user_events), 0);

    let mut up = EventCtx::new(WindowEvent::MouseUp(20, 20));
    let r = w.emit(&mut up, 1_100);
    assert_eq!(r, EventResult::NoBubbling);
    assert_eq!(clicks(&up.user_events), 1);
    assert!(up.user_events.contains(&UserEvent::ControlClicked(b_uid)));
}

#[test]
fn a_slow_down_then_up_synthesizes_none() {
    let mut generator = UidGenerator::new();
    let b = ButtonControl::new(10, 10, 100, 40, String::new(), &mut generator);
    let mut w = WindowControl::new(WidgetBox::Button(b), &mut generator, 0);

    let mut down = EventCtx::new(WindowEvent::MouseDown(20, 20));
    let _ = w.emit(&mut down, 1_000);
    let mut up = EventCtx::new(WindowEvent::MouseUp(20, 20));
    let r = w.emit(&mut up, 1_250);
    assert_eq!(r, EventResult::Bubble);
    assert_eq!(clicks(&up.user_events), 0);
}

#[test]
fn a_moved_down_then_up_synthesizes_none() {
    let mut generator = UidGenerator::new();
    let mut w = plain_window(&mut generator);
    let mut down = EventCtx::new(WindowEvent::MouseDown(100, 100));
    let _ = w.emit(&mut down, 0);
    let mut up = EventCtx::new(WindowEvent::MouseUp(101, 100));
    let r = w.emit(&mut up, 50);
    assert_eq!(r, EventResult::Bubble);
    assert_eq!(up.user_events.len(), 0);
}

#[test]
fn redraw_follows_the_spring_the_children_and_the_linger() {
    let mut generator = UidGenerator::new();
    let mut w = plain_window(&mut generator);
    // A fresh window is dirty; one draw settles it.
    assert!(w.needs_redraw(0));
    let mut ctx = DrawCtx::new();
    w.draw(&mut ctx, 0);
    assert!(!w.needs_redraw(0));

    // Setting a new size target makes it dirty at that very instant.
    w.set_size_target(1_200, 800, 0);
    assert!(w.needs_redraw(0));

    // Once the spring has converged and a draw caught up, it is clean again.
    let mut ctx2 = DrawCtx::new();
    w.draw(&mut ctx2, 100_000);
    assert!(!w.needs_redraw(100_000));
    assert_eq!(w.size, (1_200, 800));

    // The linger window after destroy keeps it dirty.
    w.destroy(100_000);
    let mut ctx3 = DrawCtx::new();
    w.draw(&mut ctx3, 100_010);
    assert!(w.needs_redraw(100_010));
    assert!(!w.needs_redraw(100_500));
}

#[test]
fn a_split_grip_press_toggles_the_size_presets() {
    let mut generator = UidGenerator::new();
    let mut w = plain_window(&mut generator);
    // Bottom-right grip of the 800 by 600 content.
    let mut ctx = EventCtx::new(WindowEvent::MousePress(808, 608));
    let r = w.emit(&mut ctx, 0);
    assert_eq!(r, EventResult::NoBubbling);
    assert!(ctx.user_events.contains(&UserEvent::WindowResize(1_200, 800)));
    assert_eq!(w.size_spring.sx.target, 1_200_000);

    // The grip follows the rendered size, which is still 800 by 600 until a
    // draw catches up, so the same point toggles back.
    let mut ctx2 = EventCtx::new(WindowEvent::MousePress(808, 608));
    let _ = w.emit(&mut ctx2, 0);
    assert!(ctx2.user_events.contains(&UserEvent::WindowResize(800, 600)));
    assert_eq!(w.size_spring.sx.target, 800_000);
}

#[test]
fn characters_reach_the_addressed_input() {
    let mut generator = UidGenerator::new();
    let input = fabric_ui::input::InputControl::new(10, 60, 200, 24, &mut generator);
    let target = input.uid;
    let mut w = WindowControl::new(WidgetBox::Input(input), &mut generator, 0);
    let mut ctx = EventCtx::new(WindowEvent::CharInput(target, 'h'));
    assert_eq!(w.emit(&mut ctx, 0), EventResult::NoBubbling);
    let mut ctx2 = EventCtx::new(WindowEvent::CharInput(target, 'i'));
    let _ = w.emit(&mut ctx2, 0);
    match &w.children[0].widget {
        WidgetBox::Input(i) => assert_eq!(i.value().as_str(), "hi"),
        _ => panic!("expected an input"),
    }
    // A character addressed elsewhere bubbles and changes nothing.
    let mut ctx3 = EventCtx::new(WindowEvent::CharInput(target + 1_000, 'x'));
    assert_eq!(w.emit(&mut ctx3, 0), EventResult::Bubble);
    match &w.children[0].widget {
        WidgetBox::Input(i) => assert_eq!(i.value().as_str(), "hi"),
        _ => panic!("expected an input"),
    }
}

#[test]
fn close_window_event_surfaces_quit() {
    let mut generator = UidGenerator::new();
    let mut w = plain_window(&mut generator);
    let mut ctx = EventCtx::new(WindowEvent::CloseWindow);
    assert_eq!(w.emit(&mut ctx, 5), EventResult::NoBubbling);
    assert_eq!(ctx.user_events, vec![UserEvent::Quit]);
    assert!(w.destroyed);
}

#[test]
fn window_move_updates_the_global_positions() {
    let mut generator = UidGenerator::new();
    let b = ButtonControl::new(5, 6, 10, 10, String::new(), &mut generator);
    let mut w = WindowControl::new(WidgetBox::Button(b), &mut generator, 0);
    let mut ctx = EventCtx::new(WindowEvent::WindowMove(200, 300));
    assert_eq!(w.emit(&mut ctx, 0), EventResult::Bubble);
    assert_eq!(w.pos, (200, 300));
    match &w.children[0].widget {
        WidgetBox::Button(b) => assert_eq!(b.g_pos, (200 + 16 + 5, 300 + 16 + 28 + 6)),
        _ => panic!("expected a button"),
    }
}

#[test]
fn real_footprint_includes_the_shadow_margin() {
    let mut generator = UidGenerator::new();
    let w = plain_window(&mut generator)
        .with_width(640, 0)
        .with_height(480, 0)
        .with_title(String::from("demo"));
    assert_eq!(w.real_width(), 640 + 32);
    assert_eq!(w.real_height(), 480 + 32);
    assert_eq!(w.title(), "demo");
}

#[test]
fn layout_clips_the_window_into_the_given_box() {
    let mut generator = UidGenerator::new();
    let mut w = plain_window(&mut generator);
    let b = w.layout(AreaBox { left: 0, right: 500, top: 0, down: 2_000 });
    assert_eq!(b, AreaBox { left: 0, right: 500, top: 0, down: 632 });
}
