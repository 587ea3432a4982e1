use mfekglif::events::EditorEvent;
use mfekglif::tool_behaviors::ToolBehavior;

struct Counter {
    events: usize,
}

impl ToolBehavior<(), (), Vec<u8>, (f32, f32)> for Counter {
    fn event(&mut self, _v: &mut (), _i: &mut (), _event: EditorEvent<(f32, f32)>) {
        self.events += 1;
    }
}

#[test]
fn default_draw_draws_nothing() {
    let mut c = Counter { events: 0 };
    let mut canvas = vec![1u8, 2, 3];
    c.event(&mut (), &mut (), EditorEvent::Other);
    c.draw(&(), &(), &mut canvas);
    assert_eq!(canvas, vec![1, 2, 3]);
    assert_eq!(c.events, 1);
}
