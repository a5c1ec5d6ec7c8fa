use druid::contexts::PaintCtx;
use druid::widget_host::{LayoutState, WidgetState};

#[test]
fn paint_ctx_reports_the_widget_state() {
    let mut s = WidgetState::new();
    s.keyboard_focus = true;
    let l = LayoutState { hovered: true };
    let c = PaintCtx::new(&s, &l);
    assert!(c.hovered());
    assert!(!c.mouse_focused());
    assert!(c.keyboard_focused());
}
