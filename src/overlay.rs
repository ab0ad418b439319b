use vstd::prelude::*;

use crate::content::Content;
use crate::geometry::{Layout, LayoutNode, Point, Size};
use crate::responsive::{Responsive, State};
use crate::shell::{merged, Shell, ShellView, Status};
use crate::widget::filled;
use crate::tree::RuntimeState;
use crate::widget::{Cursor, Interaction, Overlay as Layer};

verus! {

/// The nested overlay of a lazily built subtree, for one frame.
///
/// It owns the cache and the runtime state, taken out of their cells, so
/// that nothing else can rebuild or relay the subtree while the overlay is
/// live. Every call reaches the nested layer and the runtime tree afresh
/// through the bundle; nothing keeps a second path to them. `release` hands
/// both back when the frame's overlay work is over.
pub struct Overlay<W, O> {
    pub(crate) content: Content<W>,
    pub(crate) runtime: RuntimeState,
    pub(crate) nested: Option<O>,
}

impl<W, O> Overlay<W, O> {
    /// The cache the bundle holds.
    pub closed spec fn cache(&self) -> Content<W> {
        self.content
    }

    /// The runtime state the bundle holds.
    pub closed spec fn held_runtime(&self) -> RuntimeState {
        self.runtime
    }

    /// The nested layer the bundle holds.
    pub closed spec fn layer(&self) -> Option<O> {
        self.nested
    }

    /// Bundles a cache, its runtime state and a nested layer.
    pub(crate) fn new(content: Content<W>, runtime: RuntimeState, nested: Option<O>) -> (r: Overlay<W, O>)
        ensures
            r.cache() == content,
            r.held_runtime() == runtime,
            r.layer() == nested,
    {
        Overlay { content, runtime, nested }
    }

    /// Whether the bundle carries a nested layer.
    pub fn has_layer(&self) -> (r: bool)
        ensures
            r == self.layer() is Some,
    {
        self.nested.is_some()
    }

    /// Read access to the cache the bundle holds.
    pub fn content(&self) -> (r: &Content<W>)
        ensures
            *r == self.cache(),
    {
        &self.content
    }

    /// Read access to the runtime state the bundle holds.
    pub fn runtime(&self) -> (r: &RuntimeState)
        ensures
            *r == self.held_runtime(),
    {
        &self.runtime
    }

    /// Calls `f` on the nested layer and the runtime tree, if there is a
    /// layer.
    pub fn with_overlay_maybe<T, G: FnOnce(&O, &RuntimeState) -> T>(&self, f: G) -> (r: Option<T>)
        requires
            self.layer() is Some ==> f.requires((&self.layer()->0, &self.held_runtime())),
        ensures
            r is Some <==> self.layer() is Some,
            self.layer() is Some ==> f.ensures((&self.layer()->0, &self.held_runtime()), r->0),
    {
        match &self.nested {
            Some(nested) => Some(f(nested, &self.runtime)),
            None => None,
        }
    }

    /// Hands the cache and the runtime state back to the widget that lent
    /// them.
    pub fn release<F: Fn(Size) -> W>(self, owner: &mut Responsive<W, F>, state: &mut State)
        requires
            !old(owner).content.is_free(),
            !old(state).runtime.is_free(),
        ensures
            final(owner).view == old(owner).view,
            final(owner).content.slot == Some(self.cache()),
            final(state).runtime.slot == Some(self.held_runtime()),
    {
        owner.content.release(self.content);
        state.runtime.release(self.runtime);
    }

    /// Lays the nested layer out within `bounds`; an empty node when there is
    /// none.
    pub fn layout<M, E, R>(&mut self, renderer: &R, bounds: Size) -> (r: LayoutNode)
        where O: Layer<M, E, R>,
        ensures
            final(self).cache() == old(self).cache(),
            final(self).held_runtime().initialized == old(self).held_runtime().initialized,
            final(self).layer() is Some <==> old(self).layer() is Some,
            old(self).layer() is None ==> *final(self) == *old(self) && r.bounds
                == crate::geometry::Rectangle::new_spec(Size::spec_zero()) && r.children@.len() == 0,
            old(self).layer() matches Some(n) ==> r == n.layout_of(
                old(self).held_runtime().tree,
                *renderer,
                bounds,
            ),
    {
        match &mut self.nested {
            Some(nested) => nested.layout(&mut self.runtime.tree, renderer, bounds),
            None => LayoutNode::new(Size::zero()),
        }
    }

    /// Draws the nested layer, if any.
    pub fn draw<M, E, R>(&self, renderer: &mut R, layout: Layout<'_>, cursor: Cursor)
        where O: Layer<M, E, R>,
        ensures
            self.layer() is None ==> *final(renderer) == *old(renderer),
            self.layer() matches Some(n) ==> *final(renderer) == n.drawn(
                self.held_runtime().tree,
                *old(renderer),
                layout,
                cursor,
            ),
    {
        match &self.nested {
            Some(nested) => nested.draw(&self.runtime.tree, renderer, layout, cursor),
            None => {},
        }
    }

    /// The cursor shape the nested layer asks for; unspecified when there is
    /// none.
    pub fn mouse_interaction<M, E, R>(
        &self,
        layout: Layout<'_>,
        cursor: Cursor,
        renderer: &R,
    ) -> (r: Interaction)
        where O: Layer<M, E, R>,
        ensures
            self.layer() is None ==> r == Interaction::Unspecified,
            self.layer() matches Some(n) ==> r == n.interaction_of(
                self.held_runtime().tree,
                layout,
                cursor,
                *renderer,
            ),
    {
        match &self.nested {
            Some(nested) => nested.mouse_interaction(&self.runtime.tree, layout, cursor, renderer),
            None => Interaction::unspecified(),
        }
    }

    /// Dispatches an event to the nested layer. Its messages are collected
    /// in a channel of their own and moved into `shell` in emission order;
    /// when the layer raised a layout-invalidation signal during the call,
    /// the cached layout of the subtree is dropped, so that the next resolve
    /// lays it out again.
    pub fn on_event<M, E, R>(
        &mut self,
        event: &E,
        layout: Layout<'_>,
        cursor: Cursor,
        renderer: &R,
        shell: &mut Shell<M>,
    ) -> (r: Status)
        where O: Layer<M, E, R>,
        ensures
            old(self).layer() is None ==> r == Status::Ignored && *final(self) == *old(self)
                && *final(shell) == *old(shell),
            old(self).layer() is Some ==> final(self).layer() is Some,
            final(self).cache().size == old(self).cache().size,
            final(self).cache().element == old(self).cache().element,
            final(self).cache().builds == old(self).cache().builds,
            final(self).held_runtime().initialized == old(self).held_runtime().initialized,
            old(self).layer() is Some ==> exists|inner: ShellView<M>|
                final(shell)@ == merged(old(shell)@, inner) && (final(self).cache().layout is None)
                    == (inner.layout_invalid || old(self).cache().layout is None) && (
                !inner.layout_invalid ==> final(self).cache().layout == old(self).cache().layout),
            old(self).layer() matches Some(n) ==> r == n.event_status(
                old(self).held_runtime().tree,
                *event,
                layout,
                cursor,
                *renderer,
            ) && final(shell)@ == filled(
                old(shell)@,
                n.event_messages(old(self).held_runtime().tree, *event, layout, cursor, *renderer)@,
                n.event_invalidates(old(self).held_runtime().tree, *event, layout, cursor, *renderer),
                n.event_redraws(old(self).held_runtime().tree, *event, layout, cursor, *renderer),
            ) && (final(self).cache().layout is None) == (n.event_invalidates(
                old(self).held_runtime().tree,
                *event,
                layout,
                cursor,
                *renderer,
            ) || old(self).cache().layout is None),
    {
        match &mut self.nested {
            Some(nested) => {
                let mut local: Shell<M> = Shell::new();
                let status = nested.on_event(
                    &mut self.runtime.tree,
                    event,
                    layout,
                    cursor,
                    renderer,
                    &mut local,
                );
                proof {
                    assert(local@.messages =~= Seq::<M>::empty() + local@.messages);
                }
                self.content.finish_event(local, shell);
                status
            },
            None => Status::Ignored,
        }
    }

    /// Whether `position` lies over the nested layer; false when there is
    /// none.
    pub fn is_over<M, E, R>(&self, layout: Layout<'_>, renderer: &R, position: Point) -> (r: bool)
        where O: Layer<M, E, R>,
        ensures
            self.layer() is None ==> !r,
            self.layer() matches Some(n) ==> r == n.over(
                self.held_runtime().tree,
                layout,
                *renderer,
                position,
            ),
    {
        match &self.nested {
            Some(nested) => nested.is_over(&self.runtime.tree, layout, renderer, position),
            None => false,
        }
    }

    /// Runs `operation` over the nested layer, if any.
    pub fn operate<M, E, R, Op>(
        &mut self,
        layout: Layout<'_>,
        renderer: &R,
        operation: &mut Op,
    )
        where O: Layer<M, E, R>,
        ensures
            final(self).cache() == old(self).cache(),
            final(self).held_runtime().initialized == old(self).held_runtime().initialized,
            final(self).layer() is Some <==> old(self).layer() is Some,
            old(self).layer() is None ==> *final(self) == *old(self) && *final(operation) == *old(
                operation,
            ),
            old(self).layer() matches Some(n) ==> *final(operation) == n.operated(
                old(self).held_runtime().tree,
                layout,
                *renderer,
                *old(operation),
            ),
    {
        match &mut self.nested {
            Some(nested) => nested.operate(&mut self.runtime.tree, layout, renderer, operation),
            None => {},
        }
    }
}

} // verus!
