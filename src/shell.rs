use vstd::prelude::*;

verus! {

/// Whether an event was consumed by a widget.
#[derive(PartialEq, Eq, Structural, Clone, Copy, Debug)]
pub enum Status {
    Ignored,
    Captured,
}

/// The channel a dispatch fills: the messages emitted, in order, and the
/// requests raised for the host.
#[derive(Debug)]
pub struct Shell<Message> {
    pub messages: Vec<Message>,
    pub layout_invalid: bool,
    pub redraw_requested: bool,
}

/// The mathematical content of a [`Shell`].
pub ghost struct ShellView<Message> {
    pub messages: Seq<Message>,
    pub layout_invalid: bool,
    pub redraw_requested: bool,
}

impl<Message> View for Shell<Message> {
    type V = ShellView<Message>;

    open spec fn view(&self) -> ShellView<Message> {
        ShellView {
            messages: self.messages@,
            layout_invalid: self.layout_invalid,
            redraw_requested: self.redraw_requested,
        }
    }
}

/// What an outer channel holds after an inner one was merged into it: the
/// inner messages follow the outer ones in emission order, and a request
/// raised on either side stands.
pub open spec fn merged<Message>(
    outer: ShellView<Message>,
    inner: ShellView<Message>,
) -> ShellView<Message> {
    ShellView {
        messages: outer.messages + inner.messages,
        layout_invalid: outer.layout_invalid || inner.layout_invalid,
        redraw_requested: outer.redraw_requested || inner.redraw_requested,
    }
}

impl<Message> Shell<Message> {
    /// An empty channel with no request raised.
    pub fn new() -> (r: Shell<Message>)
        ensures
            r@.messages.len() == 0,
            !r.layout_invalid,
            !r.redraw_requested,
    {
        Shell { messages: Vec::new(), layout_invalid: false, redraw_requested: false }
    }

    /// Emits a message.
    pub fn publish(&mut self, message: Message)
        ensures
            final(self)@ == (ShellView {
                messages: old(self)@.messages.push(message),
                ..old(self)@
            }),
    {
        self.messages.push(message);
    }

    /// Signals that the layout of the widget tree must be recomputed.
    pub fn invalidate_layout(&mut self)
        ensures
            final(self)@ == (ShellView { layout_invalid: true, ..old(self)@ }),
    {
        self.layout_invalid = true;
    }

    /// Asks the host for a new frame.
    pub fn request_redraw(&mut self)
        ensures
            final(self)@ == (ShellView { redraw_requested: true, ..old(self)@ }),
    {
        self.redraw_requested = true;
    }

    pub fn is_layout_invalid(&self) -> (r: bool)
        ensures
            r == self.layout_invalid,
    {
        self.layout_invalid
    }

    /// Moves everything `inner` collected into this channel, keeping the
    /// order in which the inner messages were emitted.
    pub fn merge(&mut self, inner: Shell<Message>)
        ensures
            final(self)@ == merged(old(self)@, inner@),
    {
        let mut inner = inner;
        self.messages.append(&mut inner.messages);
        self.layout_invalid = self.layout_invalid || inner.layout_invalid;
        self.redraw_requested = self.redraw_requested || inner.redraw_requested;
    }
}

} // verus!
