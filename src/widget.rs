use vstd::prelude::*;

use crate::geometry::{Layout, LayoutNode, Limits, Point, Rectangle, Size, Vector};
use crate::shell::{merged, Shell, ShellView, Status};
use crate::tree::Tree;

verus! {

/// The shape of the mouse cursor a widget asks for.
#[derive(PartialEq, Eq, Structural, Clone, Copy, Debug)]
pub enum Interaction {
    Unspecified,
    Idle,
    Pointer,
    Grab,
    Grabbing,
    Text,
    Crosshair,
    NotAllowed,
}

impl Interaction {
    /// The interaction reported when nothing asks for one.
    pub fn unspecified() -> (r: Interaction)
        ensures
            r == Interaction::Unspecified,
    {
        Interaction::Unspecified
    }
}

/// The cursor position, when the cursor is over the window.
pub type Cursor = Option<Point>;

/// The effect of a dispatch on the channel it was handed: the messages
/// emitted, in order, and the requests raised. A dispatch only adds to a
/// channel.
pub open spec fn filled<Message>(
    shell: ShellView<Message>,
    emitted: Seq<Message>,
    invalidates: bool,
    redraws: bool,
) -> ShellView<Message> {
    merged(
        shell,
        ShellView { messages: emitted, layout_invalid: invalidates, redraw_requested: redraws },
    )
}

/// The capabilities a widget offers to its parent.
///
/// `Event` is what input dispatch carries, `Renderer` what drawing goes
/// through, and `Overlay` the transient layer a widget may float above the
/// rest of the tree. Each operation is described by a spec item of the same
/// name that implementors define; what the operation returns or leaves
/// behind is that item's value on the operation's inputs.
pub trait Widget<Message, Event, Renderer> {
    type Overlay: Overlay<Message, Event, Renderer>;

    /// `tree` reconciled with this widget.
    spec fn diffed(&self, tree: Tree) -> Tree;

    /// Reconciles `tree` with this widget: keeps the state of the nodes whose
    /// structure still matches and resets the others.
    fn diff(&self, tree: &mut Tree)
        ensures
            *final(tree) == self.diffed(*old(tree)),
    ;

    /// The node this widget lays itself out as within `limits`.
    spec fn layout_of(&self, tree: Tree, renderer: Renderer, limits: Limits) -> LayoutNode;

    /// The runtime tree after laying out within `limits`.
    spec fn tree_after_layout(&self, tree: Tree, renderer: Renderer, limits: Limits) -> Tree;

    fn layout(&self, tree: &mut Tree, renderer: &Renderer, limits: &Limits) -> (r: LayoutNode)
        ensures
            r == self.layout_of(*old(tree), *renderer, *limits),
            *final(tree) == self.tree_after_layout(*old(tree), *renderer, *limits),
    ;

    /// The renderer after drawing this widget on it.
    spec fn drawn(&self, tree: Tree, renderer: Renderer, layout: Layout<'_>, cursor: Cursor) -> Renderer;

    fn draw(&self, tree: &Tree, renderer: &mut Renderer, layout: Layout<'_>, cursor: Cursor)
        ensures
            *final(renderer) == self.drawn(*tree, *old(renderer), layout, cursor),
    ;

    /// Whether the event is captured.
    spec fn event_status(
        &self,
        tree: Tree,
        event: Event,
        layout: Layout<'_>,
        cursor: Cursor,
        renderer: Renderer,
    ) -> Status;

    /// The messages the event makes this widget emit, in order.
    spec fn event_messages(
        &self,
        tree: Tree,
        event: Event,
        layout: Layout<'_>,
        cursor: Cursor,
        renderer: Renderer,
    ) -> Vec<Message>;

    /// Whether the event makes this widget ask for a relayout.
    spec fn event_invalidates(
        &self,
        tree: Tree,
        event: Event,
        layout: Layout<'_>,
        cursor: Cursor,
        renderer: Renderer,
    ) -> bool;

    /// Whether the event makes this widget ask for a new frame.
    spec fn event_redraws(
        &self,
        tree: Tree,
        event: Event,
        layout: Layout<'_>,
        cursor: Cursor,
        renderer: Renderer,
    ) -> bool;

    fn on_event(
        &mut self,
        tree: &mut Tree,
        event: &Event,
        layout: Layout<'_>,
        cursor: Cursor,
        renderer: &Renderer,
        shell: &mut Shell<Message>,
    ) -> (r: Status)
        ensures
            r == old(self).event_status(*old(tree), *event, layout, cursor, *renderer),
            final(shell)@ == filled(
                old(shell)@,
                old(self).event_messages(*old(tree), *event, layout, cursor, *renderer)@,
                old(self).event_invalidates(*old(tree), *event, layout, cursor, *renderer),
                old(self).event_redraws(*old(tree), *event, layout, cursor, *renderer),
            ),
    ;

    /// The cursor shape this widget asks for.
    spec fn interaction_of(
        &self,
        tree: Tree,
        layout: Layout<'_>,
        cursor: Cursor,
        renderer: Renderer,
    ) -> Interaction;

    fn mouse_interaction(
        &self,
        tree: &Tree,
        layout: Layout<'_>,
        cursor: Cursor,
        renderer: &Renderer,
    ) -> (r: Interaction)
        ensures
            r == self.interaction_of(*tree, layout, cursor, *renderer),
    ;

    /// The operation after it visited this widget.
    spec fn operated<Op>(&self, tree: Tree, layout: Layout<'_>, renderer: Renderer, operation: Op) -> Op;

    /// Visits the widget with a cross-cutting query or command.
    fn operate<Op>(
        &self,
        tree: &mut Tree,
        layout: Layout<'_>,
        renderer: &Renderer,
        operation: &mut Op,
    )
        ensures
            *final(operation) == self.operated(*old(tree), layout, *renderer, *old(operation)),
    ;

    /// The overlay this widget floats above the tree in this frame, if any.
    spec fn overlay_of(
        &self,
        tree: Tree,
        layout: Layout<'_>,
        renderer: Renderer,
        translation: Vector,
    ) -> Option<Self::Overlay>;

    fn overlay(
        &mut self,
        tree: &mut Tree,
        layout: Layout<'_>,
        renderer: &Renderer,
        translation: Vector,
    ) -> (r: Option<Self::Overlay>)
        ensures
            r == old(self).overlay_of(*old(tree), layout, *renderer, translation),
    ;

    /// The identifier this widget carries.
    spec fn id_of(&self) -> Option<u64>;

    fn id(&self) -> (r: Option<u64>)
        ensures
            r == self.id_of(),
    ;

    fn set_id(&mut self, id: u64)
        ensures
            final(self).id_of() == Some(id),
    ;

    /// The rectangles on which this widget accepts dropped data.
    spec fn destinations_of(&self, tree: Tree, layout: Layout<'_>, renderer: Renderer) -> Vec<Rectangle>;

    /// Appends the rectangles on which this widget accepts dropped data.
    fn drag_destinations(
        &self,
        tree: &Tree,
        layout: Layout<'_>,
        renderer: &Renderer,
        destinations: &mut Vec<Rectangle>,
    )
        ensures
            final(destinations)@ == old(destinations)@ + self.destinations_of(
                *tree,
                layout,
                *renderer,
            )@,
    ;
}

/// A transient layer drawn above the widget tree (a menu, a tooltip).
///
/// The layer keeps no borrow of the widget that produced it: every call is
/// handed the producing widget's runtime state anew. As for [`Widget`],
/// each operation is described by a spec item that implementors define.
pub trait Overlay<Message, Event, Renderer> {
    /// The node this layer lays itself out as within `bounds`.
    spec fn layout_of(&self, tree: Tree, renderer: Renderer, bounds: Size) -> LayoutNode;

    fn layout(&mut self, tree: &mut Tree, renderer: &Renderer, bounds: Size) -> (r: LayoutNode)
        ensures
            r == old(self).layout_of(*old(tree), *renderer, bounds),
    ;

    /// The renderer after drawing this layer on it.
    spec fn drawn(&self, tree: Tree, renderer: Renderer, layout: Layout<'_>, cursor: Cursor) -> Renderer;

    fn draw(&self, tree: &Tree, renderer: &mut Renderer, layout: Layout<'_>, cursor: Cursor)
        ensures
            *final(renderer) == self.drawn(*tree, *old(renderer), layout, cursor),
    ;

    /// The cursor shape this layer asks for.
    spec fn interaction_of(
        &self,
        tree: Tree,
        layout: Layout<'_>,
        cursor: Cursor,
        renderer: Renderer,
    ) -> Interaction;

    fn mouse_interaction(
        &self,
        tree: &Tree,
        layout: Layout<'_>,
        cursor: Cursor,
        renderer: &Renderer,
    ) -> (r: Interaction)
        ensures
            r == self.interaction_of(*tree, layout, cursor, *renderer),
    ;

    /// Whether the event is captured.
    spec fn event_status(
        &self,
        tree: Tree,
        event: Event,
        layout: Layout<'_>,
        cursor: Cursor,
        renderer: Renderer,
    ) -> Status;

    /// The messages the event makes this layer emit, in order.
    spec fn event_messages(
        &self,
        tree: Tree,
        event: Event,
        layout: Layout<'_>,
        cursor: Cursor,
        renderer: Renderer,
    ) -> Vec<Message>;

    /// Whether the event makes this layer ask for a relayout.
    spec fn event_invalidates(
        &self,
        tree: Tree,
        event: Event,
        layout: Layout<'_>,
        cursor: Cursor,
        renderer: Renderer,
    ) -> bool;

    /// Whether the event makes this layer ask for a new frame.
    spec fn event_redraws(
        &self,
        tree: Tree,
        event: Event,
        layout: Layout<'_>,
        cursor: Cursor,
        renderer: Renderer,
    ) -> bool;

    fn on_event(
        &mut self,
        tree: &mut Tree,
        event: &Event,
        layout: Layout<'_>,
        cursor: Cursor,
        renderer: &Renderer,
        shell: &mut Shell<Message>,
    ) -> (r: Status)
        ensures
            r == old(self).event_status(*old(tree), *event, layout, cursor, *renderer),
            final(shell)@ == filled(
                old(shell)@,
                old(self).event_messages(*old(tree), *event, layout, cursor, *renderer)@,
                old(self).event_invalidates(*old(tree), *event, layout, cursor, *renderer),
                old(self).event_redraws(*old(tree), *event, layout, cursor, *renderer),
            ),
    ;

    /// Whether `position` lies over this layer.
    spec fn over(&self, tree: Tree, layout: Layout<'_>, renderer: Renderer, position: Point) -> bool;

    fn is_over(&self, tree: &Tree, layout: Layout<'_>, renderer: &Renderer, position: Point) -> (r: bool)
        ensures
            r == self.over(*tree, layout, *renderer, position),
    ;

    /// The operation after it visited this layer.
    spec fn operated<Op>(&self, tree: Tree, layout: Layout<'_>, renderer: Renderer, operation: Op) -> Op;

    fn operate<Op>(
        &mut self,
        tree: &mut Tree,
        layout: Layout<'_>,
        renderer: &Renderer,
        operation: &mut Op,
    )
        ensures
            *final(operation) == old(self).operated(*old(tree), layout, *renderer, *old(operation)),
    ;
}

} // verus!
