use vstd::prelude::*;

use crate::geometry::{Layout, LayoutNode, Limits, Rectangle, Size, Vector};
use crate::shell::{merged, Shell};
use crate::tree::{RuntimeState, Tree};
use crate::widget::Widget;

verus! {

/// What the rebuild and relayout policy looks at in a cache and in its
/// runtime state: the size the subtree was built for, whether a layout is
/// cached, whether the runtime tree was ever reconciled, and how many times
/// the builder has run (each run makes a new subtree).
pub ghost struct CacheModel {
    pub size: Size,
    pub has_layout: bool,
    pub initialized: bool,
    pub builds: nat,
}

/// The subtree must be built anew: on first use, or when the size differs
/// from the one it was built for.
pub open spec fn needs_rebuild(m: CacheModel, size: Size) -> bool {
    !m.initialized || m.size != size
}

/// The cache after the rebuild step for `size`.
pub open spec fn after_update(m: CacheModel, size: Size) -> CacheModel {
    if needs_rebuild(m, size) {
        CacheModel { size, has_layout: false, initialized: true, builds: m.builds + 1 }
    } else {
        m
    }
}

/// The cache after it was resolved against `size`: rebuilt if needed, then
/// laid out if no layout is cached.
pub open spec fn after_resolve(m: CacheModel, size: Size) -> CacheModel {
    CacheModel { has_layout: true, ..after_update(m, size) }
}

/// The cache after an event dispatched at `size`, where `invalidated` says
/// whether a descendant raised a layout-invalidation signal.
pub open spec fn after_event(m: CacheModel, size: Size, invalidated: bool) -> CacheModel {
    CacheModel { has_layout: !invalidated, ..after_resolve(m, size) }
}

/// The last built subtree, the size it was built for, and its cached
/// layout. `element` is `None` for the zero-size placeholder a cache starts
/// with.
pub struct Content<W> {
    pub size: Size,
    pub layout: Option<LayoutNode>,
    pub element: Option<W>,
    pub builds: Ghost<nat>,
}

impl<W> Content<W> {
    pub open spec fn model(&self, runtime: RuntimeState) -> CacheModel {
        CacheModel {
            size: self.size,
            has_layout: self.layout is Some,
            initialized: runtime.initialized,
            builds: self.builds@,
        }
    }

    /// The cached layout, placed at `offset`: what a dispatch hands the
    /// subtree.
    pub open spec fn placed(&self, offset: Vector) -> Layout<'_> {
        Layout { offset, node: &self.layout->0 }
    }

    /// The limits the subtree is laid out within: from zero to the size it
    /// was built for.
    pub open spec fn limits(&self) -> Limits {
        Limits { min: Size::spec_zero(), max: self.size }
    }

    /// What the rebuild step leaves when it starts from `self` and `runtime`:
    /// when a rebuild is due, a subtree that `view` built for `size`, no
    /// layout, and the runtime tree reconciled with the new subtree;
    /// otherwise both as they were.
    pub open spec fn updates_to<M, E, R, F>(
        &self,
        runtime: RuntimeState,
        size: Size,
        view: F,
        after: Content<W>,
        runtime_after: RuntimeState,
    ) -> bool
        where W: Widget<M, E, R>, F: Fn(Size) -> W,
    {
        &&& after.model(runtime_after) == after_update(self.model(runtime), size)
        &&& needs_rebuild(self.model(runtime), size) ==> after.element is Some && view.ensures(
            (size,),
            after.element->0,
        ) && runtime_after.tree == after.element->0.diffed(runtime.tree)
        &&& !needs_rebuild(self.model(runtime), size) ==> after == *self && runtime_after == runtime
    }

    /// What the layout step leaves when it starts from `self` and `tree`:
    /// a cached layout is kept; otherwise the subtree's node within
    /// [`Content::limits`] is cached (a zero-size node for the placeholder),
    /// with the tree as laying out left it.
    pub open spec fn lays_out_to<M, E, R>(
        &self,
        tree: Tree,
        renderer: R,
        after: Content<W>,
        tree_after: Tree,
    ) -> bool
        where W: Widget<M, E, R>,
    {
        &&& after.size == self.size
        &&& after.element == self.element
        &&& after.builds == self.builds
        &&& self.layout is Some ==> after.layout == self.layout && tree_after == tree
        &&& self.layout is None ==> match self.element {
            Some(e) => after.layout == Some(e.layout_of(tree, renderer, self.limits()))
                && tree_after == e.tree_after_layout(tree, renderer, self.limits()),
            None => after.layout is Some && after.layout->0.bounds == Rectangle::new_spec(
                Size::spec_zero(),
            ) && after.layout->0.children@.len() == 0 && tree_after == tree,
        }
    }

    /// What a resolve against `size` leaves: the rebuild step, then the
    /// layout step.
    pub open spec fn resolves_to<M, E, R, F>(
        &self,
        runtime: RuntimeState,
        size: Size,
        renderer: R,
        view: F,
        after: Content<W>,
        runtime_after: RuntimeState,
    ) -> bool
        where W: Widget<M, E, R>, F: Fn(Size) -> W,
    {
        exists|mid: Content<W>, runtime_mid: RuntimeState|
            #![trigger self.updates_to::<M, E, R, F>(runtime, size, view, mid, runtime_mid)]
            self.updates_to::<M, E, R, F>(runtime, size, view, mid, runtime_mid)
                && mid.lays_out_to::<M, E, R>(runtime_mid.tree, renderer, after, runtime_after.tree)
                && runtime_after.initialized == runtime_mid.initialized
    }

    /// A cache holding the zero-size placeholder and no layout.
    pub fn placeholder() -> (r: Content<W>)
        ensures
            r.size == Size::spec_zero(),
            r.layout is None,
            r.element is None,
            r.builds@ == 0,
    {
        Content { size: Size::zero(), layout: None, element: None, builds: Ghost(0) }
    }

    /// Rebuilds the subtree when the runtime state is pristine or the size
    /// changed, and reconciles the runtime tree with the new subtree.
    pub fn update<M, E, R, F>(&mut self, runtime: &mut RuntimeState, new_size: Size, view: &F)
        where W: Widget<M, E, R>, F: Fn(Size) -> W,
        requires
            view.requires((new_size,)),
        ensures
            final(self).model(*final(runtime)) == after_update(
                old(self).model(*old(runtime)),
                new_size,
            ),
            needs_rebuild(old(self).model(*old(runtime)), new_size) ==> final(self).element is Some
                && view.ensures((new_size,), final(self).element->0),
            !needs_rebuild(old(self).model(*old(runtime)), new_size) ==> *final(self) == *old(
                self,
            ) && *final(runtime) == *old(runtime),
            old(self).updates_to::<M, E, R, F>(
                *old(runtime),
                new_size,
                *view,
                *final(self),
                *final(runtime),
            ),
    {
        if runtime.initialized && self.size == new_size {
            return ;
        }
        let element = view(new_size);
        element.diff(&mut runtime.tree);
        runtime.initialized = true;
        self.element = Some(element);
        self.size = new_size;
        self.layout = None;
        self.builds = Ghost(self.builds@ + 1);
    }

    /// Lays the subtree out within zero and the size it was built for, when
    /// no layout is cached.
    pub fn layout<M, E, R>(&mut self, runtime: &mut RuntimeState, renderer: &R)
        where W: Widget<M, E, R>,
        ensures
            final(self).layout is Some,
            final(self).size == old(self).size,
            final(self).element == old(self).element,
            final(self).builds == old(self).builds,
            final(runtime).initialized == old(runtime).initialized,
            old(self).layout is Some ==> *final(self) == *old(self) && *final(runtime) == *old(
                runtime,
            ),
            old(self).lays_out_to::<M, E, R>(
                old(runtime).tree,
                *renderer,
                *final(self),
                final(runtime).tree,
            ),
    {
        if self.layout.is_none() {
            let limits = Limits::new(Size::zero(), self.size);
            assert(limits == self.limits());
            let node = match &self.element {
                Some(element) => element.layout(&mut runtime.tree, renderer, &limits),
                None => LayoutNode::new(Size::zero()),
            };
            self.layout = Some(node);
        }
    }

    /// Makes the cache valid for `size`: rebuilds if needed, then lays out
    /// if needed.
    pub fn resolve<M, E, R, F>(
        &mut self,
        runtime: &mut RuntimeState,
        size: Size,
        renderer: &R,
        view: &F,
    )
        where W: Widget<M, E, R>, F: Fn(Size) -> W,
        requires
            view.requires((size,)),
        ensures
            final(self).model(*final(runtime)) == after_resolve(
                old(self).model(*old(runtime)),
                size,
            ),
            needs_rebuild(old(self).model(*old(runtime)), size) ==> final(self).element is Some
                && view.ensures((size,), final(self).element->0),
            !needs_rebuild(old(self).model(*old(runtime)), size) ==> final(self).element == old(
                self,
            ).element,
            !needs_rebuild(old(self).model(*old(runtime)), size) && old(self).layout is Some
                ==> *final(self) == *old(self) && *final(runtime) == *old(runtime),
            old(self).resolves_to::<M, E, R, F>(
                *old(runtime),
                size,
                *renderer,
                *view,
                *final(self),
                *final(runtime),
            ),
    {
        self.update(runtime, size, view);
        let ghost mid = *self;
        let ghost runtime_mid = *runtime;
        self.layout(runtime, renderer);
        assert(old(self).updates_to::<M, E, R, F>(*old(runtime), size, *view, mid, runtime_mid));
    }

    /// Moves what an inner dispatch collected in `local` into `shell`, and
    /// drops the cached layout when the inner dispatch raised a
    /// layout-invalidation signal. The subtree is kept either way.
    pub fn finish_event<M>(&mut self, local: Shell<M>, shell: &mut Shell<M>)
        ensures
            final(shell)@ == merged(old(shell)@, local@),
            (final(self).layout is None) == (local.layout_invalid || old(self).layout is None),
            !local.layout_invalid ==> final(self).layout == old(self).layout,
            final(self).size == old(self).size,
            final(self).element == old(self).element,
            final(self).builds == old(self).builds,
    {
        if local.is_layout_invalid() {
            self.layout = None;
        }
        shell.merge(local);
    }
}

} // verus!
