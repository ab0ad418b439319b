use std::cell::Cell;
use std::rc::Rc;

use lazy_responsive::cell::{AccessError, ExclusiveCell};
use lazy_responsive::content::Content;
use lazy_responsive::geometry::{Layout, LayoutNode, Length, Limits, Point, Rectangle, Size, Vector};
use lazy_responsive::responsive::{Responsive, State};
use lazy_responsive::shell::{Shell, Status};
use lazy_responsive::tree::{RuntimeState, Tree};
use lazy_responsive::widget::{Cursor, Interaction, Overlay as Layer, Widget};

/// A leaf that records the limits it was laid out with, emits the given
/// messages on every event, and may ask for a relayout or float a popup.
#[derive(Debug)]
struct Leaf {
    built_for: Size,
    serial: u32,
    emits: Vec<u32>,
    invalidate: bool,
    popup: bool,
    id: Option<u64>,
    events: u32,
}

#[derive(Debug)]
struct Popup {
    invalidate: bool,
}

impl Layer<u32, u32, ()> for Popup {
    fn layout_of(&self, _tree: Tree, _renderer: (), bounds: Size) -> LayoutNode {
        LayoutNode::new(bounds)
    }

    fn drawn(&self, _tree: Tree, renderer: (), _layout: Layout<'_>, _cursor: Cursor) {
        renderer
    }

    fn interaction_of(&self, _tree: Tree, _layout: Layout<'_>, _cursor: Cursor, _renderer: ()) -> Interaction {
        Interaction::Pointer
    }

    fn event_status(&self, _tree: Tree, _event: u32, _layout: Layout<'_>, _cursor: Cursor, _renderer: ()) -> Status {
        Status::Captured
    }

    fn event_messages(&self, _tree: Tree, event: u32, _layout: Layout<'_>, _cursor: Cursor, _renderer: ()) -> Vec<u32> {
        vec![event + 1000]
    }

    fn event_invalidates(&self, _tree: Tree, _event: u32, _layout: Layout<'_>, _cursor: Cursor, _renderer: ()) -> bool {
        self.invalidate
    }

    fn event_redraws(&self, _tree: Tree, _event: u32, _layout: Layout<'_>, _cursor: Cursor, _renderer: ()) -> bool {
        false
    }

    fn over(&self, _tree: Tree, _layout: Layout<'_>, _renderer: (), position: Point) -> bool {
        position.x >= 0 && position.y >= 0
    }

    fn operated<Op>(&self, _tree: Tree, _layout: Layout<'_>, _renderer: (), operation: Op) -> Op {
        operation
    }

    fn layout(&mut self, _tree: &mut Tree, _renderer: &(), bounds: Size) -> LayoutNode {
        LayoutNode::new(bounds)
    }

    fn draw(&self, _tree: &Tree, _renderer: &mut (), _layout: Layout<'_>, _cursor: Cursor) {}

    fn mouse_interaction(
        &self,
        _tree: &Tree,
        _layout: Layout<'_>,
        _cursor: Cursor,
        _renderer: &(),
    ) -> Interaction {
        Interaction::Pointer
    }

    fn on_event(
        &mut self,
        tree: &mut Tree,
        event: &u32,
        _layout: Layout<'_>,
        _cursor: Cursor,
        _renderer: &(),
        shell: &mut Shell<u32>,
    ) -> Status {
        tree.state.push(*event as u64);
        shell.publish(*event + 1000);
        if self.invalidate {
            shell.invalidate_layout();
        }
        Status::Captured
    }

    fn is_over(&self, _tree: &Tree, _layout: Layout<'_>, _renderer: &(), position: Point) -> bool {
        position.x >= 0 && position.y >= 0
    }

    fn operate<Op>(
        &mut self,
        tree: &mut Tree,
        _layout: Layout<'_>,
        _renderer: &(),
        _operation: &mut Op,
    ) {
        tree.tag = 99;
    }
}

impl Widget<u32, u32, ()> for Leaf {
    type Overlay = Popup;

    fn diffed(&self, tree: Tree) -> Tree {
        if tree.tag != 7 {
            let mut fresh = Tree::empty();
            fresh.tag = 7;
            fresh
        } else {
            tree
        }
    }

    fn layout_of(&self, _tree: Tree, _renderer: (), limits: Limits) -> LayoutNode {
        LayoutNode::new(limits.max)
    }

    fn tree_after_layout(&self, tree: Tree, _renderer: (), _limits: Limits) -> Tree {
        tree
    }

    fn drawn(&self, _tree: Tree, renderer: (), _layout: Layout<'_>, _cursor: Cursor) {
        renderer
    }

    fn event_status(&self, _tree: Tree, _event: u32, _layout: Layout<'_>, _cursor: Cursor, _renderer: ()) -> Status {
        Status::Captured
    }

    fn event_messages(&self, _tree: Tree, _event: u32, _layout: Layout<'_>, _cursor: Cursor, _renderer: ()) -> Vec<u32> {
        self.emits.clone()
    }

    fn event_invalidates(&self, _tree: Tree, _event: u32, _layout: Layout<'_>, _cursor: Cursor, _renderer: ()) -> bool {
        self.invalidate
    }

    fn event_redraws(&self, _tree: Tree, _event: u32, _layout: Layout<'_>, _cursor: Cursor, _renderer: ()) -> bool {
        false
    }

    fn interaction_of(&self, _tree: Tree, _layout: Layout<'_>, _cursor: Cursor, _renderer: ()) -> Interaction {
        Interaction::Text
    }

    fn operated<Op>(&self, _tree: Tree, _layout: Layout<'_>, _renderer: (), operation: Op) -> Op {
        operation
    }

    fn overlay_of(&self, _tree: Tree, _layout: Layout<'_>, _renderer: (), _translation: Vector) -> Option<Popup> {
        if self.popup {
            Some(Popup { invalidate: self.invalidate })
        } else {
            None
        }
    }

    fn id_of(&self) -> Option<u64> {
        self.id
    }

    fn destinations_of(&self, _tree: Tree, layout: Layout<'_>, _renderer: ()) -> Vec<Rectangle> {
        vec![Rectangle::new(
            Point { x: layout.offset.x, y: layout.offset.y },
            Size::new(layout.node.bounds.width, layout.node.bounds.height),
        )]
    }

    fn diff(&self, tree: &mut Tree) {
        if tree.tag != 7 {
            *tree = Tree::empty();
            tree.tag = 7;
        }
    }

    fn layout(&self, _tree: &mut Tree, _renderer: &(), limits: &Limits) -> LayoutNode {
        LayoutNode::new(limits.max)
    }

    fn draw(&self, _tree: &Tree, _renderer: &mut (), _layout: Layout<'_>, _cursor: Cursor) {}

    fn on_event(
        &mut self,
        _tree: &mut Tree,
        _event: &u32,
        _layout: Layout<'_>,
        _cursor: Cursor,
        _renderer: &(),
        shell: &mut Shell<u32>,
    ) -> Status {
        self.events += 1;
        for m in &self.emits {
            shell.publish(*m);
        }
        if self.invalidate {
            shell.invalidate_layout();
        }
        Status::Captured
    }

    fn mouse_interaction(
        &self,
        _tree: &Tree,
        _layout: Layout<'_>,
        _cursor: Cursor,
        _renderer: &(),
    ) -> Interaction {
        Interaction::Text
    }

    fn operate<Op>(
        &self,
        tree: &mut Tree,
        _layout: Layout<'_>,
        _renderer: &(),
        _operation: &mut Op,
    ) {
        tree.children.push(Tree::empty());
    }

    fn overlay(
        &mut self,
        _tree: &mut Tree,
        _layout: Layout<'_>,
        _renderer: &(),
        _translation: Vector,
    ) -> Option<Popup> {
        if self.popup {
            Some(Popup { invalidate: self.invalidate })
        } else {
            None
        }
    }

    fn id(&self) -> Option<u64> {
        self.id
    }

    fn set_id(&mut self, id: u64) {
        self.id = Some(id);
    }

    fn drag_destinations(
        &self,
        _tree: &Tree,
        layout: Layout<'_>,
        _renderer: &(),
        destinations: &mut Vec<Rectangle>,
    ) {
        destinations.push(Rectangle::new(
            Point { x: layout.offset.x, y: layout.offset.y },
            Size::new(layout.node.bounds.width, layout.node.bounds.height),
        ));
    }
}

struct Options {
    emits: Vec<u32>,
    invalidate: bool,
    popup: bool,
}

fn plain() -> Options {
    Options { emits: vec![], invalidate: false, popup: false }
}

fn counted(
    options: Options,
) -> (Responsive<Leaf, impl Fn(Size) -> Leaf>, Rc<Cell<u32>>) {
    let calls = Rc::new(Cell::new(0u32));
    let seen = calls.clone();
    let view = move |size: Size| {
        seen.set(seen.get() + 1);
        Leaf {
            built_for: size,
            serial: seen.get(),
            emits: options.emits.clone(),
            invalidate: options.invalidate,
            popup: options.popup,
            id: None,
            events: 0,
        }
    };
    (Responsive::new(view), calls)
}

fn at(width: u32, height: u32) -> Rectangle {
    Rectangle::new(Point { x: 10, y: 20 }, Size::new(width, height))
}

fn cached(r: &Responsive<Leaf, impl Fn(Size) -> Leaf>) -> &Content<Leaf> {
    r.content.slot.as_ref().unwrap()
}

fn cached_mut(r: &mut Responsive<Leaf, impl Fn(Size) -> Leaf>) -> &mut Content<Leaf> {
    r.content.slot.as_mut().unwrap()
}

fn serial(r: &Responsive<Leaf, impl Fn(Size) -> Leaf>) -> u32 {
    cached(r).element.as_ref().unwrap().serial
}

#[test]
fn repeated_resolve_builds_once() {
    let (mut r, calls) = counted(plain());
    let mut state = r.state();
    for _ in 0..5 {
        r.draw(&mut state, &mut (), at(100, 50), None);
    }
    assert_eq!(calls.get(), 1);
    assert_eq!(serial(&r), 1);
    assert_eq!(cached(&r).size, Size::new(100, 50));
}

#[test]
fn example_scenario_resize_rebuilds_once() {
    let (mut r, calls) = counted(plain());
    let mut state = r.state();
    r.draw(&mut state, &mut (), at(100, 50), None);
    assert_eq!(calls.get(), 1);
    let first = cached(&r).layout.as_ref().unwrap().bounds;
    assert_eq!(first.width, 100);
    assert_eq!(first.height, 50);

    r.draw(&mut state, &mut (), at(100, 50), None);
    assert_eq!(calls.get(), 1);
    assert_eq!(cached(&r).layout.as_ref().unwrap().bounds, first);

    r.draw(&mut state, &mut (), at(200, 50), None);
    assert_eq!(calls.get(), 2);
    assert_eq!(serial(&r), 2);
    let second = cached(&r).layout.as_ref().unwrap().bounds;
    assert_eq!(second.width, 200);
    assert_eq!(second.height, 50);
    assert_eq!(cached(&r).element.as_ref().unwrap().built_for, Size::new(200, 50));
}

#[test]
fn first_use_at_zero_size_builds_and_reconciles() {
    let (mut r, calls) = counted(plain());
    let mut state = r.state();
    assert!(state.runtime.slot.as_ref().unwrap().is_pristine());
    r.draw(&mut state, &mut (), at(0, 0), None);
    assert_eq!(calls.get(), 1);
    let runtime = state.runtime.slot.as_ref().unwrap();
    assert!(!runtime.is_pristine());
    assert_eq!(runtime.tree.tag, 7);
    assert_eq!(cached(&r).size, Size::zero());
}

#[test]
fn fresh_widget_over_reconciled_state_keeps_placeholder_at_zero() {
    let (mut first, _) = counted(plain());
    let mut state = first.state();
    first.draw(&mut state, &mut (), at(0, 0), None);

    let (mut second, calls) = counted(plain());
    let interaction = second.mouse_interaction(&mut state, at(0, 0), None, &());
    assert_eq!(interaction, Interaction::Unspecified);
    assert_eq!(calls.get(), 0);
    assert_eq!(second.id(), None);

    assert_eq!(second.mouse_interaction(&mut state, at(5, 5), None, &()), Interaction::Text);
    assert_eq!(calls.get(), 1);
}

#[test]
fn invalidation_clears_layout_keeps_subtree() {
    let (mut r, calls) = counted(Options { emits: vec![], invalidate: true, popup: false });
    let mut state = r.state();
    let mut shell: Shell<u32> = Shell::new();
    let status = r.on_event(&mut state, &1, at(100, 50), None, &(), &mut shell);
    assert_eq!(status, Status::Captured);
    assert_eq!(calls.get(), 1);
    assert!(cached(&r).layout.is_none());
    assert_eq!(serial(&r), 1);
    assert_eq!(cached(&r).element.as_ref().unwrap().events, 1);
    assert!(shell.is_layout_invalid());

    r.draw(&mut state, &mut (), at(100, 50), None);
    assert_eq!(calls.get(), 1);
    assert_eq!(serial(&r), 1);
    assert!(cached(&r).layout.is_some());
}

#[test]
fn event_without_invalidation_keeps_layout() {
    let (mut r, _) = counted(plain());
    let mut state = r.state();
    let mut shell: Shell<u32> = Shell::new();
    r.on_event(&mut state, &1, at(100, 50), None, &(), &mut shell);
    assert!(cached(&r).layout.is_some());
    assert!(!shell.is_layout_invalid());
}

#[test]
fn messages_keep_emission_order() {
    let (mut r, _) = counted(Options { emits: vec![2, 3, 4], invalidate: false, popup: false });
    let mut state = r.state();
    let mut shell: Shell<u32> = Shell::new();
    shell.publish(1);
    r.on_event(&mut state, &0, at(100, 50), None, &(), &mut shell);
    assert_eq!(shell.messages, vec![1, 2, 3, 4]);
    r.on_event(&mut state, &0, at(100, 50), None, &(), &mut shell);
    assert_eq!(shell.messages, vec![1, 2, 3, 4, 2, 3, 4]);
}

#[test]
fn merge_appends_and_keeps_requests() {
    let mut outer: Shell<u32> = Shell::new();
    outer.publish(5);
    outer.request_redraw();
    let mut inner: Shell<u32> = Shell::new();
    inner.publish(6);
    inner.publish(7);
    inner.invalidate_layout();
    outer.merge(inner);
    assert_eq!(outer.messages, vec![5, 6, 7]);
    assert!(outer.layout_invalid);
    assert!(outer.redraw_requested);
}

#[test]
fn overlay_none_when_subtree_floats_nothing() {
    let (mut r, calls) = counted(plain());
    let mut state = r.state();
    let overlay = r.overlay(&mut state, at(100, 50), &(), Vector { x: 0, y: 0 });
    assert!(overlay.is_none());
    assert_eq!(calls.get(), 1);
    assert!(!r.content.is_borrowed());
    assert!(!state.runtime.is_borrowed());
    assert!(cached(&r).layout.is_some());
}

#[test]
fn overlay_is_exclusive_while_active() {
    let (mut r, calls) = counted(Options { emits: vec![], invalidate: false, popup: true });
    let mut state = r.state();
    let overlay = r.overlay(&mut state, at(100, 50), &(), Vector { x: 0, y: 0 });
    let overlay = overlay.unwrap();
    assert!(overlay.has_layer());
    assert!(r.content.is_borrowed());
    assert!(state.runtime.is_borrowed());
    assert_eq!(r.content.acquire().err(), Some(AccessError::AlreadyBorrowed));
    assert_eq!(state.runtime.acquire().err(), Some(AccessError::AlreadyBorrowed));

    overlay.release(&mut r, &mut state);
    assert!(!r.content.is_borrowed());
    assert!(!state.runtime.is_borrowed());
    r.draw(&mut state, &mut (), at(100, 50), None);
    assert_eq!(calls.get(), 1);
}

#[test]
fn overlay_forwards_to_nested_layer() {
    let (mut r, _) = counted(Options { emits: vec![], invalidate: false, popup: true });
    let mut state = r.state();
    let mut overlay = r.overlay(&mut state, at(100, 50), &(), Vector { x: 0, y: 0 }).unwrap();
    let node = overlay.layout(&(), Size::new(30, 40));
    assert_eq!(node.bounds.width, 30);
    assert_eq!(node.bounds.height, 40);
    let layout = Layout::with_offset(Vector { x: 0, y: 0 }, &node);
    assert_eq!(overlay.mouse_interaction(layout, None, &()), Interaction::Pointer);
    assert!(overlay.is_over(layout, &(), Point { x: 1, y: 1 }));
    assert!(!overlay.is_over(layout, &(), Point { x: -1, y: 1 }));
    let mut shell: Shell<u32> = Shell::new();
    assert_eq!(overlay.on_event(&9, layout, None, &(), &mut shell), Status::Captured);
    assert_eq!(shell.messages, vec![1009]);
    assert_eq!(overlay.runtime().tree.state, vec![9]);
    assert!(overlay.content().layout.is_some());
    let mut op = ();
    overlay.operate(layout, &(), &mut op);
    assert_eq!(overlay.runtime().tree.tag, 99);
    assert_eq!(overlay.with_overlay_maybe(|p, _| p.invalidate), Some(false));
    overlay.release(&mut r, &mut state);
    assert_eq!(state.runtime.slot.as_ref().unwrap().tree.state, vec![9]);
}

#[test]
fn overlay_event_invalidation_clears_cached_layout() {
    let (mut r, calls) = counted(Options { emits: vec![], invalidate: true, popup: true });
    let mut state = r.state();
    let mut overlay = r.overlay(&mut state, at(100, 50), &(), Vector { x: 0, y: 0 }).unwrap();
    let node = LayoutNode::new(Size::new(10, 10));
    let layout = Layout::with_offset(Vector { x: 0, y: 0 }, &node);
    let mut shell: Shell<u32> = Shell::new();
    overlay.on_event(&1, layout, None, &(), &mut shell);
    assert!(overlay.content().layout.is_none());
    overlay.release(&mut r, &mut state);
    r.draw(&mut state, &mut (), at(100, 50), None);
    assert!(cached(&r).layout.is_some());
    assert_eq!(calls.get(), 1);
}

#[test]
fn overlay_event_ignores_flag_raised_before_the_call() {
    let (mut r, _) = counted(Options { emits: vec![], invalidate: false, popup: true });
    let mut state = r.state();
    let mut overlay = r.overlay(&mut state, at(100, 50), &(), Vector { x: 0, y: 0 }).unwrap();
    let node = LayoutNode::new(Size::new(10, 10));
    let layout = Layout::with_offset(Vector { x: 0, y: 0 }, &node);
    let mut shell: Shell<u32> = Shell::new();
    shell.invalidate_layout();
    overlay.on_event(&1, layout, None, &(), &mut shell);
    assert!(overlay.content().layout.is_some());
    assert!(shell.is_layout_invalid());
    assert_eq!(shell.messages, vec![1001]);
    overlay.release(&mut r, &mut state);
}

#[test]
fn descendant_invalidation_clears_layout_even_when_outer_flag_set() {
    let (mut r, calls) = counted(Options { emits: vec![], invalidate: true, popup: false });
    let mut state = r.state();
    r.draw(&mut state, &mut (), at(100, 50), None);
    let mut shell: Shell<u32> = Shell::new();
    shell.invalidate_layout();
    r.on_event(&mut state, &1, at(100, 50), None, &(), &mut shell);
    assert!(cached(&r).layout.is_none());
    assert_eq!(serial(&r), 1);
    assert_eq!(calls.get(), 1);
}

#[test]
fn finish_event_merges_and_clears_on_inner_signal() {
    let mut content: Content<Leaf> = Content::placeholder();
    content.layout = Some(LayoutNode::new(Size::new(1, 1)));
    let mut outer: Shell<u32> = Shell::new();
    outer.publish(1);
    outer.invalidate_layout();
    let mut inner: Shell<u32> = Shell::new();
    inner.publish(2);
    content.finish_event(inner, &mut outer);
    assert!(content.layout.is_some());
    assert_eq!(outer.messages, vec![1, 2]);

    let mut inner: Shell<u32> = Shell::new();
    inner.invalidate_layout();
    content.finish_event(inner, &mut outer);
    assert!(content.layout.is_none());
}

#[test]
fn steady_frame_keeps_layout_node() {
    let (mut r, calls) = counted(plain());
    let mut state = r.state();
    r.draw(&mut state, &mut (), at(100, 50), None);
    cached_mut(&mut r).layout.as_mut().unwrap().children.push(LayoutNode::new(Size::new(1, 2)));
    r.draw(&mut state, &mut (), at(100, 50), None);
    assert_eq!(calls.get(), 1);
    assert_eq!(cached(&r).layout.as_ref().unwrap().children.len(), 1);
}

#[test]
fn exclusive_cell_take_hands_out_value() {
    let mut cell = ExclusiveCell::new(3u32);
    assert_eq!(cell.take(), 3);
    assert!(cell.is_borrowed());
}

#[test]
fn operate_and_drag_destinations_forward() {
    let (mut r, _) = counted(plain());
    let mut state = r.state();
    let mut op = 0u8;
    r.operate(&mut state, at(100, 50), &(), &mut op);
    assert_eq!(state.runtime.slot.as_ref().unwrap().tree.children.len(), 1);
    let mut rects = vec![];
    r.drag_destinations(&mut state, at(100, 50), &(), &mut rects);
    assert_eq!(rects, vec![Rectangle::new(Point { x: 10, y: 20 }, Size::new(100, 50))]);
}

#[test]
fn id_forwards_to_subtree() {
    let (mut r, _) = counted(plain());
    let mut state = r.state();
    assert_eq!(r.id(), None);
    r.draw(&mut state, &mut (), at(100, 50), None);
    r.set_id(42);
    assert_eq!(r.id(), Some(42));
}

#[test]
fn fills_available_space() {
    let (r, _) = counted(plain());
    let sizing = r.size();
    assert_eq!(sizing.width, Length::Fill);
    assert_eq!(sizing.height, Length::Fill);
    let node = r.layout(&Limits::new(Size::zero(), Size::new(300, 200)));
    assert_eq!(node.bounds, Rectangle::new(Point { x: 0, y: 0 }, Size::new(300, 200)));
    assert!(node.children.is_empty());
}

#[test]
fn exclusive_cell_refuses_second_holder() {
    let mut cell = ExclusiveCell::new(5u32);
    assert_eq!(cell.acquire(), Ok(5));
    assert_eq!(cell.acquire(), Err(AccessError::AlreadyBorrowed));
    cell.release(6);
    assert_eq!(cell.acquire(), Ok(6));
}

#[test]
fn content_resolve_directly() {
    let mut content: Content<Leaf> = Content::placeholder();
    let mut runtime = RuntimeState::new();
    let calls = Cell::new(0u32);
    let view = |size: Size| {
        calls.set(calls.get() + 1);
        Leaf { built_for: size, serial: calls.get(), emits: vec![], invalidate: false, popup: false, id: None, events: 0 }
    };
    content.resolve::<u32, u32, (), _>(&mut runtime, Size::new(3, 4), &(), &view);
    content.resolve::<u32, u32, (), _>(&mut runtime, Size::new(3, 4), &(), &view);
    assert_eq!(calls.get(), 1);
    content.resolve::<u32, u32, (), _>(&mut runtime, Size::new(4, 4), &(), &view);
    assert_eq!(calls.get(), 2);
    assert_eq!(content.layout.as_ref().unwrap().bounds.width, 4);
}

#[test]
fn state_starts_pristine() {
    let state = State::new();
    assert!(state.runtime.slot.as_ref().unwrap().is_pristine());
}


#[test]
fn present_overlay_follows_the_subtree_answer() {
    let (mut r, _) = counted(plain());
    let mut state = r.state();
    let content = r.content.acquire().unwrap();
    let runtime = state.runtime.acquire().unwrap();
    let none: Option<Popup> = None;
    assert!(r.present_overlay(&mut state, content, runtime, none).is_none());
    assert!(!r.content.is_borrowed());
    assert!(!state.runtime.is_borrowed());

    let content = r.content.acquire().unwrap();
    let runtime = state.runtime.acquire().unwrap();
    let shown = r.present_overlay(&mut state, content, runtime, Some(Popup { invalidate: true }));
    let shown = shown.unwrap();
    assert!(shown.with_overlay_maybe(|p, _| p.invalidate).unwrap());
    assert!(r.content.is_borrowed());
    assert!(state.runtime.is_borrowed());
    shown.release(&mut r, &mut state);
    assert!(!r.content.is_borrowed());
}
