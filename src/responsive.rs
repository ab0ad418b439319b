use vstd::prelude::*;

use crate::cell::ExclusiveCell;
use crate::content::{after_event, after_resolve, needs_rebuild, CacheModel, Content};
use crate::geometry::{Vector, Layout, LayoutNode, Length, Limits, Rectangle, Size, Sizing};
use crate::shell::{merged, Shell, ShellView, Status};
use crate::widget::filled;
use crate::overlay::Overlay;
use crate::tree::RuntimeState;
use crate::widget::{Cursor, Interaction, Widget};

verus! {

/// A widget that builds its content from the size it is given.
///
/// It always fills the space its parent offers. On the first use, and
/// whenever that space changes, it calls `view` with the new size, caches
/// the subtree and its layout, and forwards every operation to the cached
/// subtree.
pub struct Responsive<W, F> {
    pub view: F,
    pub content: ExclusiveCell<Content<W>>,
}

/// The runtime state a [`Responsive`] keeps in its parent's tree: the
/// runtime state of the subtree it builds.
#[derive(Debug)]
pub struct State {
    pub runtime: ExclusiveCell<RuntimeState>,
}

impl State {
    pub fn new() -> (r: State)
        ensures
            r.runtime.is_free(),
            !r.runtime.value().initialized,
            r.runtime.value().tree.tag == 0,
            r.runtime.value().tree.state@.len() == 0,
            r.runtime.value().tree.children@.len() == 0,
    {
        State { runtime: ExclusiveCell::new(RuntimeState::new()) }
    }
}

impl<W, F: Fn(Size) -> W> Responsive<W, F> {
    /// `view` can be asked for a subtree of any size.
    pub open spec fn view_total(&self) -> bool {
        forall|s: Size| #[trigger] self.view.requires((s,))
    }

    /// Neither the cache nor the runtime state is held by a live overlay.
    pub open spec fn is_free(&self, state: State) -> bool {
        self.content.is_free() && state.runtime.is_free()
    }

    pub open spec fn model(&self, state: State) -> CacheModel {
        self.content.value().model(state.runtime.value())
    }

    /// What resolving this widget's cache against `size` leaves in `after`:
    /// a subtree that `view` built for `size` when a rebuild was due, and
    /// otherwise the very subtree cached before, with the same layout node
    /// when one was cached.
    pub open spec fn resolved_into(&self, state: State, after: Content<W>, size: Size) -> bool {
        let before = self.content.value();
        let m = self.model(state);
        &&& needs_rebuild(m, size) ==> after.element is Some && self.view.ensures(
            (size,),
            after.element->0,
        )
        &&& !needs_rebuild(m, size) ==> after.element == before.element
        &&& !needs_rebuild(m, size) && before.layout is Some ==> after.layout == before.layout
    }

    /// The cells hold the cache as a resolve against `size` left it, and
    /// the runtime state that resolve reconciled.
    pub open spec fn settled(&self, state: State, old_self: Self, old_state: State, size: Size) -> bool {
        &&& self.view == old_self.view
        &&& self.is_free(state)
        &&& self.model(state) == after_resolve(old_self.model(old_state), size)
        &&& old_self.resolved_into(old_state, self.content.value(), size)
    }

    /// A responsive widget whose content `view` builds for a given size.
    /// The cache starts with a zero-size placeholder and no layout.
    pub fn new(view: F) -> (r: Responsive<W, F>)
        requires
            forall|s: Size| #[trigger] view.requires((s,)),
        ensures
            r.view == view,
            r.view_total(),
            r.content.is_free(),
            r.content.value().size == Size::spec_zero(),
            r.content.value().layout is None,
            r.content.value().element is None,
            r.content.value().builds@ == 0,
    {
        Responsive { view, content: ExclusiveCell::new(Content::placeholder()) }
    }

    /// The runtime state to store for this widget in its parent's tree.
    pub fn state(&self) -> (r: State)
        ensures
            r.runtime.is_free(),
            !r.runtime.value().initialized,
            r.runtime.value().tree.tag == 0,
            r.runtime.value().tree.state@.len() == 0,
            r.runtime.value().tree.children@.len() == 0,
    {
        State::new()
    }

    /// Fills all the available space.
    pub fn size(&self) -> (r: Sizing)
        ensures
            r.width == Length::Fill,
            r.height == Length::Fill,
    {
        Sizing { width: Length::Fill, height: Length::Fill }
    }

    /// Takes the largest size the limits allow.
    pub fn layout(&self, limits: &Limits) -> (r: LayoutNode)
        ensures
            r.bounds == Rectangle::new_spec(limits.max),
            r.children@.len() == 0,
    {
        LayoutNode::new(limits.max)
    }

    /// Takes the cache and the runtime state out of their cells and
    /// resolves the cache against `size`.
    fn begin<M, E, R>(&mut self, state: &mut State, size: Size, renderer: &R) -> (r: (
        Content<W>,
        RuntimeState,
    ))
        where W: Widget<M, E, R>,
        requires
            old(self).view_total(),
            old(self).is_free(*old(state)),
        ensures
            final(self).view == old(self).view,
            !final(self).content.is_free(),
            !final(state).runtime.is_free(),
            r.0.layout is Some,
            r.0.model(r.1) == after_resolve(old(self).model(*old(state)), size),
            old(self).resolved_into(*old(state), r.0, size),
            old(self).content.value().resolves_to::<M, E, R, F>(
                old(state).runtime.value(),
                size,
                *renderer,
                old(self).view,
                r.0,
                r.1,
            ),
    {
        let mut content = self.content.take();
        let mut runtime = state.runtime.take();
        content.resolve(&mut runtime, size, renderer, &self.view);
        (content, runtime)
    }

    /// Puts the cache and the runtime state back into their cells.
    fn end(&mut self, state: &mut State, content: Content<W>, runtime: RuntimeState)
        requires
            !old(self).content.is_free(),
            !old(state).runtime.is_free(),
        ensures
            final(self).view == old(self).view,
            final(self).content.slot == Some(content),
            final(state).runtime.slot == Some(runtime),
    {
        self.content.release(content);
        state.runtime.release(runtime);
    }

    /// Dispatches an input event to the subtree built for `bounds`.
    ///
    /// Messages are collected in a channel of their own and then moved into
    /// `shell` in the order they were emitted. A layout-invalidation signal
    /// raised during the dispatch drops the cached layout and keeps the
    /// subtree (see [`Content::finish_event`]).
    pub fn on_event<M, E, R>(
        &mut self,
        state: &mut State,
        event: &E,
        bounds: Rectangle,
        cursor: Cursor,
        renderer: &R,
        shell: &mut Shell<M>,
    ) -> (r: Status)
        where W: Widget<M, E, R>,
        requires
            old(self).view_total(),
            old(self).is_free(*old(state)),
        ensures
            final(self).view == old(self).view,
            final(self).is_free(*final(state)),
            exists|inner: ShellView<M>|
                final(shell)@ == merged(old(shell)@, inner) && final(self).model(*final(state))
                    == after_event(
                    old(self).model(*old(state)),
                    bounds.spec_size(),
                    inner.layout_invalid,
                ) && (!inner.layout_invalid && !needs_rebuild(
                    old(self).model(*old(state)),
                    bounds.spec_size(),
                ) && old(self).content.value().layout is Some ==> final(self).content.value().layout
                    == old(self).content.value().layout),
            final(self).content.value().element is None ==> r == Status::Ignored && final(shell)@
                == old(shell)@,
            exists|c: Content<W>, rt: RuntimeState|
                old(self).content.value().resolves_to::<M, E, R, F>(
                    old(state).runtime.value(),
                    bounds.spec_size(),
                    *renderer,
                    old(self).view,
                    c,
                    rt,
                ) && match c.element {
                    Some(e) => r == e.event_status(
                        rt.tree,
                        *event,
                        c.placed(bounds.spec_offset()),
                        cursor,
                        *renderer,
                    ) && final(shell)@ == filled(
                        old(shell)@,
                        e.event_messages(rt.tree, *event, c.placed(bounds.spec_offset()), cursor, *renderer)@,
                        e.event_invalidates(rt.tree, *event, c.placed(bounds.spec_offset()), cursor, *renderer),
                        e.event_redraws(rt.tree, *event, c.placed(bounds.spec_offset()), cursor, *renderer),
                    ) && (final(self).content.value().layout is None) == e.event_invalidates(
                        rt.tree,
                        *event,
                        c.placed(bounds.spec_offset()),
                        cursor,
                        *renderer,
                    ) && (final(self).content.value().layout is Some
                        ==> final(self).content.value().layout == c.layout),
                    None => final(self).content.value().layout == c.layout,
                } && final(self).content.value().size == c.size
                    && final(self).content.value().builds == c.builds,
    {
        let (mut content, mut runtime) = self.begin(state, bounds.size(), renderer);
        let ghost c = content;
        let ghost rt = runtime;
        let mut local: Shell<M> = Shell::new();
        let node = content.layout.as_ref().unwrap();
        let status = match &mut content.element {
            Some(element) => element.on_event(
                &mut runtime.tree,
                event,
                Layout::with_offset(bounds.offset(), node),
                cursor,
                renderer,
                &mut local,
            ),
            None => Status::Ignored,
        };
        proof {
            if c.element is Some {
                assert(local@.messages =~= Seq::<M>::empty() + local@.messages);
            }
        }
        content.finish_event(local, shell);
        self.end(state, content, runtime);
        assert(old(self).content.value().resolves_to::<M, E, R, F>(
            old(state).runtime.value(),
            bounds.spec_size(),
            *renderer,
            old(self).view,
            c,
            rt,
        ));
        status
    }

    /// Draws the subtree built for `bounds`.
    pub fn draw<M, E, R>(&mut self, state: &mut State, renderer: &mut R, bounds: Rectangle, cursor: Cursor)
        where W: Widget<M, E, R>,
        requires
            old(self).view_total(),
            old(self).is_free(*old(state)),
        ensures
            final(self).settled(*final(state), *old(self), *old(state), bounds.spec_size()),
            final(self).content.value().element is None ==> *final(renderer) == *old(renderer),
            old(self).content.value().resolves_to::<M, E, R, F>(
                old(state).runtime.value(),
                bounds.spec_size(),
                *old(renderer),
                old(self).view,
                final(self).content.value(),
                final(state).runtime.value(),
            ),
            final(self).content.value().element matches Some(e) ==> *final(renderer) == e.drawn(
                final(state).runtime.value().tree,
                *old(renderer),
                final(self).content.value().placed(bounds.spec_offset()),
                cursor,
            ),
    {
        let (content, runtime) = self.begin(state, bounds.size(), &*renderer);
        let node = content.layout.as_ref().unwrap();
        match &content.element {
            Some(element) => element.draw(
                &runtime.tree,
                renderer,
                Layout::with_offset(bounds.offset(), node),
                cursor,
            ),
            None => {},
        }
        self.end(state, content, runtime);
    }

    /// The cursor shape the subtree built for `bounds` asks for.
    pub fn mouse_interaction<M, E, R>(
        &mut self,
        state: &mut State,
        bounds: Rectangle,
        cursor: Cursor,
        renderer: &R,
    ) -> (r: Interaction)
        where W: Widget<M, E, R>,
        requires
            old(self).view_total(),
            old(self).is_free(*old(state)),
        ensures
            final(self).settled(*final(state), *old(self), *old(state), bounds.spec_size()),
            final(self).content.value().element is None ==> r == Interaction::Unspecified,
            old(self).content.value().resolves_to::<M, E, R, F>(
                old(state).runtime.value(),
                bounds.spec_size(),
                *renderer,
                old(self).view,
                final(self).content.value(),
                final(state).runtime.value(),
            ),
            final(self).content.value().element matches Some(e) ==> r == e.interaction_of(
                final(state).runtime.value().tree,
                final(self).content.value().placed(bounds.spec_offset()),
                cursor,
                *renderer,
            ),
    {
        let (content, runtime) = self.begin(state, bounds.size(), renderer);
        let node = content.layout.as_ref().unwrap();
        let interaction = match &content.element {
            Some(element) => element.mouse_interaction(
                &runtime.tree,
                Layout::with_offset(bounds.offset(), node),
                cursor,
                renderer,
            ),
            None => Interaction::unspecified(),
        };
        self.end(state, content, runtime);
        interaction
    }

    /// Runs `operation` over the subtree built for `bounds`.
    pub fn operate<M, E, R, Op>(
        &mut self,
        state: &mut State,
        bounds: Rectangle,
        renderer: &R,
        operation: &mut Op,
    )
        where W: Widget<M, E, R>,
        requires
            old(self).view_total(),
            old(self).is_free(*old(state)),
        ensures
            final(self).settled(*final(state), *old(self), *old(state), bounds.spec_size()),
            final(self).content.value().element is None ==> *final(operation) == *old(operation),
            exists|rt: RuntimeState|
                old(self).content.value().resolves_to::<M, E, R, F>(
                    old(state).runtime.value(),
                    bounds.spec_size(),
                    *renderer,
                    old(self).view,
                    final(self).content.value(),
                    rt,
                ) && (final(self).content.value().element matches Some(e) ==> *final(operation)
                    == e.operated(
                    rt.tree,
                    final(self).content.value().placed(bounds.spec_offset()),
                    *renderer,
                    *old(operation),
                )),
    {
        let (content, mut runtime) = self.begin(state, bounds.size(), renderer);
        let ghost rt = runtime;
        let node = content.layout.as_ref().unwrap();
        match &content.element {
            Some(element) => element.operate(
                &mut runtime.tree,
                Layout::with_offset(bounds.offset(), node),
                renderer,
                operation,
            ),
            None => {},
        }
        self.end(state, content, runtime);
        assert(old(self).content.value().resolves_to::<M, E, R, F>(
            old(state).runtime.value(),
            bounds.spec_size(),
            *renderer,
            old(self).view,
            content,
            rt,
        ));
    }

    /// Appends the drop targets of the subtree built for `bounds`.
    pub fn drag_destinations<M, E, R>(
        &mut self,
        state: &mut State,
        bounds: Rectangle,
        renderer: &R,
        destinations: &mut Vec<Rectangle>,
    )
        where W: Widget<M, E, R>,
        requires
            old(self).view_total(),
            old(self).is_free(*old(state)),
        ensures
            final(self).settled(*final(state), *old(self), *old(state), bounds.spec_size()),
            final(self).content.value().element is None ==> final(destinations)@ == old(
                destinations,
            )@,
            old(self).content.value().resolves_to::<M, E, R, F>(
                old(state).runtime.value(),
                bounds.spec_size(),
                *renderer,
                old(self).view,
                final(self).content.value(),
                final(state).runtime.value(),
            ),
            final(self).content.value().element matches Some(e) ==> final(destinations)@ == old(
                destinations,
            )@ + e.destinations_of(
                final(state).runtime.value().tree,
                final(self).content.value().placed(bounds.spec_offset()),
                *renderer,
            )@,
    {
        let (content, runtime) = self.begin(state, bounds.size(), renderer);
        let node = content.layout.as_ref().unwrap();
        match &content.element {
            Some(element) => element.drag_destinations(
                &runtime.tree,
                Layout::with_offset(bounds.offset(), node),
                renderer,
                destinations,
            ),
            None => {},
        }
        self.end(state, content, runtime);
    }

    /// The identifier of the cached subtree; the placeholder has none.
    pub fn id<M, E, R>(&self) -> (r: Option<u64>)
        where W: Widget<M, E, R>,
        requires
            self.content.is_free(),
        ensures
            self.content.value().element is None ==> r is None,
            self.content.value().element matches Some(e) ==> r == e.id_of(),
    {
        let content = self.content.slot.as_ref().unwrap();
        match &content.element {
            Some(element) => element.id(),
            None => None,
        }
    }

    /// Gives the cached subtree an identifier; the placeholder takes none.
    pub fn set_id<M, E, R>(&mut self, id: u64)
        where W: Widget<M, E, R>,
        requires
            old(self).content.is_free(),
        ensures
            final(self).view == old(self).view,
            final(self).content.is_free(),
            final(self).content.value().size == old(self).content.value().size,
            final(self).content.value().layout == old(self).content.value().layout,
            final(self).content.value().builds == old(self).content.value().builds,
            final(self).content.value().element is Some <==> old(
                self,
            ).content.value().element is Some,
            old(self).content.value().element is None ==> *final(self) == *old(self),
            final(self).content.value().element matches Some(e) ==> e.id_of() == Some(id),
    {
        match &mut self.content.slot {
            Some(content) => match &mut content.element {
                Some(element) => element.set_id(id),
                None => {},
            },
            None => {},
        }
    }

    /// The nested overlay of the subtree built for `bounds`, for this frame.
    ///
    /// When the subtree floats a layer, the cache and the runtime state go
    /// into the returned overlay and stay out of their cells until it is
    /// released; every other operation requires them back. When it floats
    /// none, both go back at once and `None` comes out.
    pub fn overlay<M, E, R>(
        &mut self,
        state: &mut State,
        bounds: Rectangle,
        renderer: &R,
        translation: Vector,
    ) -> (r: Option<Overlay<W, W::Overlay>>)
        where W: Widget<M, E, R>,
        requires
            old(self).view_total(),
            old(self).is_free(*old(state)),
        ensures
            final(self).view == old(self).view,
            r is None ==> final(self).is_free(*final(state)) && final(self).model(*final(state))
                == after_resolve(old(self).model(*old(state)), bounds.spec_size()),
            r is None && !needs_rebuild(old(self).model(*old(state)), bounds.spec_size())
                && old(self).content.value().layout is Some ==> final(self).content.value().layout
                == old(self).content.value().layout,
            r matches Some(o) ==> o.layer() is Some && o.cache().element is Some
                && !final(self).content.is_free() && !final(state).runtime.is_free()
                && o.cache().model(o.held_runtime()) == after_resolve(
                old(self).model(*old(state)),
                bounds.spec_size(),
            ) && (!needs_rebuild(old(self).model(*old(state)), bounds.spec_size())
                && old(self).content.value().layout is Some ==> o.cache().layout == old(
                self,
            ).content.value().layout),
            exists|c: Content<W>, rt: RuntimeState|
                old(self).content.value().resolves_to::<M, E, R, F>(
                    old(state).runtime.value(),
                    bounds.spec_size(),
                    *renderer,
                    old(self).view,
                    c,
                    rt,
                ) && match c.element {
                    Some(e) => (r is Some <==> e.overlay_of(
                        rt.tree,
                        c.placed(bounds.spec_offset()),
                        *renderer,
                        translation,
                    ) is Some) && (r matches Some(o) ==> o.layer() == e.overlay_of(
                        rt.tree,
                        c.placed(bounds.spec_offset()),
                        *renderer,
                        translation,
                    )),
                    None => r is None,
                },
    {
        let (mut content, mut runtime) = self.begin(state, bounds.size(), renderer);
        let ghost c = content;
        let ghost rt = runtime;
        let node = content.layout.as_ref().unwrap();
        let nested = match &mut content.element {
            Some(element) => element.overlay(
                &mut runtime.tree,
                Layout::with_offset(bounds.offset(), node),
                renderer,
                translation,
            ),
            None => None,
        };
        let r = self.present_overlay(state, content, runtime, nested);
        assert(old(self).content.value().resolves_to::<M, E, R, F>(
            old(state).runtime.value(),
            bounds.spec_size(),
            *renderer,
            old(self).view,
            c,
            rt,
        ));
        r
    }

    /// Turns what the subtree answered to an overlay query into the result
    /// of [`Responsive::overlay`]: an active overlay that keeps the cache and
    /// the runtime state when the subtree floats a layer, or `None` after
    /// both went back into their cells.
    pub fn present_overlay<O>(
        &mut self,
        state: &mut State,
        content: Content<W>,
        runtime: RuntimeState,
        nested: Option<O>,
    ) -> (r: Option<Overlay<W, O>>)
        requires
            !old(self).content.is_free(),
            !old(state).runtime.is_free(),
        ensures
            final(self).view == old(self).view,
            r is None <==> nested is None,
            nested is None ==> final(self).content.slot == Some(content)
                && final(state).runtime.slot == Some(runtime),
            nested is Some ==> r is Some && r->0.cache() == content && r->0.held_runtime() == runtime
                && r->0.layer() == nested && *final(self) == *old(self) && *final(state) == *old(
                state,
            ),
    {
        match nested {
            Some(layer) => Some(Overlay::new(content, runtime, Some(layer))),
            None => {
                self.end(state, content, runtime);
                None
            },
        }
    }
}

} // verus!
