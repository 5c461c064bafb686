//! The widget tree: a write-once, ordered display list under a single root.
use vstd::prelude::*;
use vstd::view::View as _;

verus! {

/// The concrete variant of a widget, consulted by the frame renderer.
#[derive(Clone, Copy, Debug, PartialEq, Eq, Structural)]
pub enum WidgetKind {
    Root,
    Text,
}

/// A node of the widget tree.
pub enum Widget {
    /// A container: draws nothing itself.
    Root(Root),
    /// A plain text payload.
    Text(Text),
}

/// An ordered list of widgets; insertion order is draw order, top to bottom.
pub struct Root {
    pub children: Vec<Widget>,
}

/// A widget that renders one string.
pub struct Text {
    pub text: String,
}

/// The whole widget tree of an application.
pub struct View {
    pub root: Root,
}

/// What `Widget::to_string` hands back for a container.
pub open spec fn root_placeholder() -> Seq<char> {
    seq!['R', 'o', 'o', 't']
}

impl Widget {
    pub open spec fn spec_kind(&self) -> WidgetKind {
        match self {
            Widget::Root(_) => WidgetKind::Root,
            Widget::Text(_) => WidgetKind::Text,
        }
    }

    /// The renderable payload: the string of a text widget, a placeholder otherwise.
    pub open spec fn payload(&self) -> Seq<char> {
        match self {
            Widget::Root(_) => root_placeholder(),
            Widget::Text(t) => t.text@,
        }
    }

    pub fn kind(&self) -> (r: WidgetKind)
        ensures
            r == self.spec_kind(),
    {
        match self {
            Widget::Root(_) => WidgetKind::Root,
            Widget::Text(_) => WidgetKind::Text,
        }
    }

    pub fn is_text(&self) -> (r: bool)
        ensures
            r == (self.spec_kind() == WidgetKind::Text),
    {
        match self {
            Widget::Root(_) => false,
            Widget::Text(_) => true,
        }
    }

    pub fn to_string(&self) -> (r: String)
        ensures
            r@ == self.payload(),
    {
        match self {
            Widget::Root(_) => {
                let s = "Root";
                proof {
                    reveal_strlit("Root");
                }
                s.to_string()
            },
            Widget::Text(t) => t.text.clone(),
        }
    }
}

impl Root {
    pub fn new() -> (r: Root)
        ensures
            r.children@.len() == 0,
    {
        Root { children: Vec::new() }
    }

    /// Appends a widget after the existing children.
    pub fn add_child(&mut self, child: Widget) -> (r: &Self)
        ensures
            final(self).children@ == old(self).children@.push(child),
            *r == *final(self),
    {
        self.children.push(child);
        self
    }
}

impl Text {
    pub fn new(text: &str) -> (r: Text)
        ensures
            r.text@ == text@,
    {
        Text { text: text.to_string() }
    }
}

impl View {
    pub fn new() -> (r: View)
        ensures
            r.root.children@.len() == 0,
    {
        View { root: Root::new() }
    }

    /// Appends a widget to the root, after the existing children.
    pub fn add_child(&mut self, child: Widget) -> (r: &Self)
        ensures
            final(self).root.children@ == old(self).root.children@.push(child),
            *r == *final(self),
    {
        self.root.add_child(child);
        self
    }
}

/// The children of a container that held `start`, after `add_child` was
/// called with each of `calls` in turn.
pub open spec fn after_appends(start: Seq<Widget>, calls: Seq<Widget>) -> Seq<Widget>
    decreases calls.len(),
{
    if calls.len() == 0 {
        start
    } else {
        after_appends(start, calls.drop_last()).push(calls.last())
    }
}

/// Append order: whatever sequence of `add_child` calls is made, the
/// children are the earlier ones followed by the added widgets in call
/// order; from an empty container, draw order is exactly call order.
pub proof fn lemma_draw_order_is_call_order(start: Seq<Widget>, calls: Seq<Widget>)
    ensures
        after_appends(start, calls) == start + calls,
        after_appends(seq![], calls) == calls,
    decreases calls.len(),
{
    if calls.len() > 0 {
        lemma_draw_order_is_call_order(start, calls.drop_last());
        assert(start + calls =~= (start + calls.drop_last()).push(calls.last()));
        assert(seq![] + calls =~= calls);
        assert(seq![] + calls.drop_last() =~= calls.drop_last());
    } else {
        assert(start + calls =~= start);
    }
}

} // verus!
