//! The text-submission step of the frame renderer: which strings are queued
//! for rasterization each frame, at what size and where on the screen.
use vstd::prelude::*;
use vstd::view::View as _;
use crate::widgets::{Root, View, Widget, WidgetKind};

verus! {

/// The font size, in logical units, at which every text widget is queued.
pub const FONT_SIZE: u32 = 32;

/// One string queued into the text subsystem, with its screen position.
pub struct TextSection {
    pub text: String,
    pub x: u64,
    pub y: u64,
    pub scale: u32,
}

/// The payloads of the text widgets among `ws`, in order; other kinds are skipped.
pub open spec fn text_payloads(ws: Seq<Widget>) -> Seq<Seq<char>>
    decreases ws.len(),
{
    if ws.len() == 0 {
        seq![]
    } else {
        let prev = text_payloads(ws.drop_last());
        if ws.last().spec_kind() == WidgetKind::Text {
            prev.push(ws.last().payload())
        } else {
            prev
        }
    }
}

/// `s` is the `i`-th queued text (0-based), holding `payload` and stacked
/// at vertical offset `i * font_size` on the left edge.
pub open spec fn section_at(s: TextSection, payload: Seq<char>, i: int, font_size: int) -> bool {
    &&& s.text@ == payload
    &&& s.x == 0
    &&& s.y == i * font_size
    &&& s.scale == font_size
}

/// `r` is the block-stacking layout of the widgets `ws` at `font_size`.
pub open spec fn lays_out(ws: Seq<Widget>, font_size: int, r: Seq<TextSection>) -> bool {
    let texts = text_payloads(ws);
    &&& r.len() == texts.len()
    &&& forall|i: int| 0 <= i < r.len() ==> section_at(#[trigger] r[i], texts[i], i, font_size)
}

proof fn lemma_text_payloads_len(ws: Seq<Widget>)
    ensures
        text_payloads(ws).len() <= ws.len(),
    decreases ws.len(),
{
    if ws.len() > 0 {
        lemma_text_payloads_len(ws.drop_last());
    }
}

/// Rendering is deterministic: two layouts of the same widgets at the same
/// font size queue the same strings at the same positions and size.
pub proof fn lemma_layout_deterministic(ws: Seq<Widget>, font_size: int, a: Seq<TextSection>, b: Seq<TextSection>)
    requires
        lays_out(ws, font_size, a),
        lays_out(ws, font_size, b),
    ensures
        a.len() == b.len(),
        forall|i: int|
            0 <= i < a.len() ==> {
                &&& (#[trigger] a[i]).text@ == b[i].text@
                &&& a[i].x == b[i].x
                &&& a[i].y == b[i].y
                &&& a[i].scale == b[i].scale
            },
{
    assert forall|i: int| 0 <= i < a.len() implies {
        &&& (#[trigger] a[i]).text@ == b[i].text@
        &&& a[i].x == b[i].x
        &&& a[i].y == b[i].y
        &&& a[i].scale == b[i].scale
    } by {
        assert(section_at(a[i], text_payloads(ws)[i], i, font_size));
        assert(section_at(b[i], text_payloads(ws)[i], i, font_size));
    }
}

/// When every widget is a text widget, each one is queued: widget `i`
/// holds its own string at vertical offset `i * font_size`.
pub proof fn lemma_text_widgets_stack(ws: Seq<Widget>, font_size: int, r: Seq<TextSection>)
    requires
        forall|i: int| 0 <= i < ws.len() ==> (#[trigger] ws[i]).spec_kind() == WidgetKind::Text,
        lays_out(ws, font_size, r),
    ensures
        r.len() == ws.len(),
        forall|i: int|
            0 <= i < ws.len() ==> {
                &&& (#[trigger] r[i]).text@ == ws[i].payload()
                &&& r[i].x == 0
                &&& r[i].y == i * font_size
                &&& r[i].scale == font_size
            },
{
    lemma_text_payloads_all_text(ws);
    assert forall|i: int| 0 <= i < ws.len() implies {
        &&& (#[trigger] r[i]).text@ == ws[i].payload()
        &&& r[i].x == 0
        &&& r[i].y == i * font_size
        &&& r[i].scale == font_size
    } by {
        assert(section_at(r[i], text_payloads(ws)[i], i, font_size));
    }
}

proof fn lemma_text_payloads_all_text(ws: Seq<Widget>)
    requires
        forall|i: int| 0 <= i < ws.len() ==> (#[trigger] ws[i]).spec_kind() == WidgetKind::Text,
    ensures
        text_payloads(ws) == ws.map_values(|w: Widget| w.payload()),
    decreases ws.len(),
{
    if ws.len() > 0 {
        let p = ws.drop_last();
        assert forall|i: int| 0 <= i < p.len() implies (#[trigger] p[i]).spec_kind() == WidgetKind::Text by {
            assert(p[i] == ws[i]);
        }
        lemma_text_payloads_all_text(p);
        assert(ws.last() == ws[ws.len() - 1]);
        assert(ws.map_values(|w: Widget| w.payload()) =~= p.map_values(|w: Widget| w.payload()).push(ws.last().payload()));
    } else {
        assert(ws.map_values(|w: Widget| w.payload()) =~= seq![]);
    }
}

/// Stacks the text widgets among `children` top to bottom: the `n`-th text
/// widget is queued at `(0, n * font_size)`; other widgets take no room.
pub fn layout_sections(children: &Vec<Widget>, font_size: u32) -> (r: Vec<TextSection>)
    requires
        children@.len() * font_size <= u64::MAX,
    ensures
        lays_out(children@, font_size as int, r@),
{
    let mut r: Vec<TextSection> = Vec::new();
    let mut i: usize = 0;
    while i < children.len()
        invariant
            i <= children@.len(),
            children@.len() * font_size <= u64::MAX,
            lays_out(children@.take(i as int), font_size as int, r@),
        decreases children@.len() - i,
    {
        proof {
            assert(children@.take(i as int + 1).drop_last() =~= children@.take(i as int));
            lemma_text_payloads_len(children@.take(i as int));
        }
        let w = &children[i];
        if w.is_text() {
            let n = r.len();
            proof {
                assert(n <= i);
                assert(n * font_size <= children@.len() * font_size) by (nonlinear_arith)
                    requires
                        n <= i,
                        i <= children@.len(),
                ;
            }
            let y: u64 = (n as u64) * (font_size as u64);
            let section = TextSection { text: w.to_string(), x: 0, y, scale: font_size };
            r.push(section);
        }
        i = i + 1;
    }
    proof {
        assert(children@.take(i as int) =~= children@);
    }
    r
}

impl Root {
    /// The text sections queued for this container's children at `font_size`.
    pub fn text_sections(&self, font_size: u32) -> (r: Vec<TextSection>)
        requires
            self.children@.len() * font_size <= u64::MAX,
        ensures
            lays_out(self.children@, font_size as int, r@),
    {
        layout_sections(&self.children, font_size)
    }
}

impl View {
    /// The text sections of one frame: the root's children at `FONT_SIZE`.
    pub fn frame_sections(&self) -> (r: Vec<TextSection>)
        requires
            self.root.children@.len() * FONT_SIZE <= u64::MAX,
        ensures
            lays_out(self.root.children@, FONT_SIZE as int, r@),
    {
        self.root.text_sections(FONT_SIZE)
    }
}

} // verus!
