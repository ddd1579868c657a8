//! Rows: one line of raw text and its rendered form.

use vstd::prelude::*;

verus! {

/// Distance between tab stops, in rendered columns.
pub const TAB_STOP_LENGTH: usize = 8;

/// The number of columns a tab fills when it starts at `column`: it reaches
/// the first tab stop strictly to the right of `column`.
pub open spec fn tab_fill(column: nat, tab_stop: nat) -> nat
    recommends
        tab_stop > 0,
{
    (tab_stop - column % tab_stop) as nat
}

/// A run of `n` spaces.
pub open spec fn blanks(n: nat) -> Seq<char> {
    Seq::new(n, |i: int| ' ')
}

/// The rendered form of `raw`: every character stands for itself in one
/// column, except a tab, which becomes spaces up to the next tab stop,
/// counted from the start of the line.
pub open spec fn expand_tabs(raw: Seq<char>, tab_stop: nat) -> Seq<char>
    decreases raw.len(),
{
    if raw.len() == 0 {
        Seq::empty()
    } else {
        let head = expand_tabs(raw.drop_last(), tab_stop);
        if raw.last() == '\t' {
            head + blanks(tab_fill(head.len(), tab_stop))
        } else {
            head.push(raw.last())
        }
    }
}

/// The rendered form is never shorter than the raw text, never longer than
/// `tab_stop` columns for each raw character, and holds no tab.
pub proof fn lemma_expand_tabs_shape(raw: Seq<char>, tab_stop: nat)
    requires
        tab_stop > 0,
    ensures
        raw.len() <= expand_tabs(raw, tab_stop).len() <= raw.len() * tab_stop,
        forall|i: int|
            0 <= i < expand_tabs(raw, tab_stop).len() ==> #[trigger] expand_tabs(raw, tab_stop)[i]
                != '\t',
    decreases raw.len(),
{
    if raw.len() > 0 {
        let head = expand_tabs(raw.drop_last(), tab_stop);
        lemma_expand_tabs_shape(raw.drop_last(), tab_stop);
        assert(0 <= head.len() % tab_stop < tab_stop) by (nonlinear_arith)
            requires
                tab_stop > 0,
        ;
        assert((raw.len() - 1) * tab_stop + tab_stop == raw.len() * tab_stop)
            by (nonlinear_arith);
        assert(raw.len() - 1 + 1 <= (raw.len() - 1) * tab_stop + tab_stop) by (nonlinear_arith)
            requires
                tab_stop >= 1,
                raw.len() >= 1,
        ;
    }
}

/// Text without tabs is its own rendered form.
pub proof fn lemma_expand_tabs_plain(raw: Seq<char>, tab_stop: nat)
    requires
        forall|i: int| 0 <= i < raw.len() ==> raw[i] != '\t',
    ensures
        expand_tabs(raw, tab_stop) == raw,
    decreases raw.len(),
{
    if raw.len() > 0 {
        lemma_expand_tabs_plain(raw.drop_last(), tab_stop);
        assert(raw.drop_last().push(raw.last()) == raw);
    }
}

/// Rendering is idempotent: rendered text renders to itself.
pub proof fn lemma_expand_tabs_idempotent(raw: Seq<char>, tab_stop: nat)
    requires
        tab_stop > 0,
    ensures
        expand_tabs(expand_tabs(raw, tab_stop), tab_stop) == expand_tabs(raw, tab_stop),
{
    lemma_expand_tabs_shape(raw, tab_stop);
    lemma_expand_tabs_plain(expand_tabs(raw, tab_stop), tab_stop);
}

/// An ordinary character takes exactly one column, right after what stands
/// before it.
pub proof fn lemma_plain_char_takes_one_column(before: Seq<char>, c: char, tab_stop: nat)
    requires
        c != '\t',
    ensures
        expand_tabs(before.push(c), tab_stop) == expand_tabs(before, tab_stop).push(c),
{
    assert(before.push(c).drop_last() == before);
}

/// A tab that starts at rendered column `c` becomes spaces only, at least one
/// and at most `tab_stop` of them, and ends on the first multiple of
/// `tab_stop` strictly greater than `c`; a character that follows the tab
/// stands at that column.
pub proof fn lemma_tab_reaches_next_stop(before: Seq<char>, next: char, tab_stop: nat)
    requires
        tab_stop > 0,
        next != '\t',
    ensures
        ({
            let start = expand_tabs(before, tab_stop).len();
            let with_tab = expand_tabs(before.push('\t'), tab_stop);
            &&& with_tab == expand_tabs(before, tab_stop) + blanks(tab_fill(start, tab_stop))
            &&& start < with_tab.len() <= start + tab_stop
            &&& with_tab.len() % tab_stop == 0
            &&& with_tab.len() == (start / tab_stop + 1) * tab_stop
            &&& forall|i: int| start <= i < with_tab.len() ==> with_tab[i] == ' '
            &&& expand_tabs(before.push('\t').push(next), tab_stop)[with_tab.len() as int] == next
        }),
{
    let start = expand_tabs(before, tab_stop).len();
    let with_tab = expand_tabs(before.push('\t'), tab_stop);
    assert(before.push('\t').drop_last() == before);
    lemma_plain_char_takes_one_column(before.push('\t'), next, tab_stop);
    let q = start / tab_stop;
    let r = start % tab_stop;
    let end = with_tab.len();
    assert(0 <= r < tab_stop && start == tab_stop * q + r) by (nonlinear_arith)
        requires
            tab_stop > 0,
            q == start / tab_stop,
            r == start % tab_stop,
    ;
    assert(end == start + tab_fill(start, tab_stop));
    assert(end == (q + 1) * tab_stop) by (nonlinear_arith)
        requires
            end == start + tab_stop - r,
            start == tab_stop * q + r,
    ;
    assert(((q + 1) * tab_stop) % tab_stop == 0) by (nonlinear_arith)
        requires
            tab_stop > 0,
    ;
}

/// Renders one line of text with tab stops every `tab_stop` columns.
pub fn render_line(raw: &str, tab_stop: usize) -> (rendered: Vec<char>)
    requires
        tab_stop > 0,
    ensures
        rendered@ == expand_tabs(raw@, tab_stop as nat),
{
    let mut rendered: Vec<char> = Vec::new();
    for c in it: raw.chars()
        invariant
            tab_stop > 0,
            it.seq() == raw@,
            rendered@ == expand_tabs(raw@.take(it.index() as int), tab_stop as nat),
    {
        assert(raw@.take(it.index() + 1).drop_last() == raw@.take(it.index() as int));
        if c == '\t' {
            let fill: usize = tab_stop - rendered.len() % tab_stop;
            let ghost head = rendered@;
            let mut k: usize = 0;
            while k < fill
                invariant
                    k <= fill,
                    rendered@ == head + blanks(k as nat),
                decreases fill - k,
            {
                rendered.push(' ');
                k += 1;
            }
        } else {
            rendered.push(c);
        }
    }
    assert(raw@.take(raw@.len() as int) == raw@);
    rendered
}

/// One line of the document: its raw text and the rendered form of it.
#[derive(Debug)]
pub struct EditorRow {
    /// The line as it stands in the document, without its line ending.
    pub text_raw: String,
    /// What the line looks like on screen, one character per column.
    pub text_render: Vec<char>,
}

impl EditorRow {
    /// The rendered form is the raw text with its tabs expanded to the
    /// default tab stops.
    pub open spec fn wf(&self) -> bool {
        self.text_render@ == expand_tabs(self.text_raw@, TAB_STOP_LENGTH as nat)
    }

    /// Makes a row from a line of text and renders it.
    pub fn from(text: String) -> (row: Self)
        ensures
            row.text_raw == text,
            row.wf(),
            row.text_render@.len() >= row.text_raw@.len(),
            forall|i: int| 0 <= i < row.text_render@.len() ==> row.text_render@[i] != '\t',
    {
        let mut row = EditorRow { text_raw: text, text_render: Vec::new() };
        row.update();
        row
    }

    /// Renders the row again from its raw text.
    pub fn update(&mut self)
        ensures
            final(self).text_raw == old(self).text_raw,
            final(self).wf(),
            old(self).wf() ==> final(self).text_render@ == old(self).text_render@,
            final(self).text_render@.len() >= final(self).text_raw@.len(),
            forall|i: int|
                0 <= i < final(self).text_render@.len() ==> final(self).text_render@[i] != '\t',
    {
        self.text_render = render_line(self.text_raw.as_str(), TAB_STOP_LENGTH);
        proof {
            lemma_expand_tabs_shape(self.text_raw@, TAB_STOP_LENGTH as nat);
        }
    }
}

} // verus!
