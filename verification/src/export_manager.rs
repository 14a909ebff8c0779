//! The export engine: renders a recognized result into a chosen textual
//! output format, splicing formula fragments into section body text at their
//! recorded character offsets in descending-offset order.
use vstd::prelude::*;
use vstd::multiset::Multiset;

use crate::{
    AppConfig, BlockFormat, DocumentContent, DocumentSection, ExportFormat, FormulaBlock,
    FormulaResult, InlineFormat, InputType, MarkdownFormulaFormat, MathSeekError, MathSeekResult,
    ResultContent, document_spliceable, section_spliceable,
};
use crate::clock;
use crate::text::{
    dec_digits, repeat_char_spec, repeat_str, splice_spec, splice_string, split_paragraphs,
    split_paragraphs_exec, thousandths_spec, thousandths_to_string, trim_dollars,
    trim_dollars_spec, trim_ws, trim_ws_spec, usize_to_string,
};

verus! {

/// How a formula fragment is written out when spliced into body text.
#[derive(Debug, Clone, Copy, PartialEq, Eq, Structural)]
pub enum MarkupStyle {
    /// `$...$` when inline, an `equation` environment when block.
    LatexDocument,
    /// Always `$...$`.
    AllInlineDollar,
    /// `$...$` when inline, `$$...$$` when block.
    HtmlDollar,
    /// The configured Markdown delimiters; `force_inline` makes every
    /// fragment use the inline style.
    Markdown { format: MarkdownFormulaFormat, force_inline: bool },
}

/// The Markdown markup for a formula, per the configured delimiter styles.
pub open spec fn md_formula_spec(latex: Seq<char>, is_inline: bool, fmt: MarkdownFormulaFormat) -> Seq<char> {
    let core = trim_dollars_spec(latex);
    if is_inline {
        match fmt.inline {
            InlineFormat::Dollar => "$"@ + core + "$"@,
            InlineFormat::Parentheses => "\\("@ + core + "\\)"@,
        }
    } else {
        match fmt.block {
            BlockFormat::DoubleDollar => "$$"@ + core + "$$"@,
            BlockFormat::Brackets => "\\["@ + core + "\\]"@,
        }
    }
}

/// The markup text for one fragment under the given style.
pub open spec fn formula_markup_spec(f: FormulaBlock, style: MarkupStyle) -> Seq<char> {
    let core = trim_dollars_spec(f.latex@);
    match style {
        MarkupStyle::LatexDocument => if f.is_inline {
            "$"@ + core + "$"@
        } else {
            "\\begin{equation}\n"@ + core + "\n\\end{equation}"@
        },
        MarkupStyle::AllInlineDollar => "$"@ + core + "$"@,
        MarkupStyle::HtmlDollar => if f.is_inline {
            "$"@ + core + "$"@
        } else {
            "$$"@ + core + "$$"@
        },
        MarkupStyle::Markdown { format, force_inline } => md_formula_spec(
            f.latex@,
            f.is_inline || force_inline,
            format,
        ),
    }
}

/// Renders the markup for one fragment.
fn formula_markup(f: &FormulaBlock, style: MarkupStyle) -> (r: String)
    ensures
        r@ == formula_markup_spec(*f, style),
{
    let core = trim_dollars(f.latex.as_str());
    match style {
        MarkupStyle::LatexDocument => {
            if f.is_inline {
                let mut out = String::from_str("$");
                out.append(core.as_str());
                out.append("$");
                out
            } else {
                let mut out = String::from_str("\\begin{equation}\n");
                out.append(core.as_str());
                out.append("\n\\end{equation}");
                out
            }
        },
        MarkupStyle::AllInlineDollar => {
            let mut out = String::from_str("$");
            out.append(core.as_str());
            out.append("$");
            out
        },
        MarkupStyle::HtmlDollar => {
            if f.is_inline {
                let mut out = String::from_str("$");
                out.append(core.as_str());
                out.append("$");
                out
            } else {
                let mut out = String::from_str("$$");
                out.append(core.as_str());
                out.append("$$");
                out
            }
        },
        MarkupStyle::Markdown { format, force_inline } => {
            if f.is_inline || force_inline {
                match format.inline {
                    InlineFormat::Dollar => {
                        let mut out = String::from_str("$");
                        out.append(core.as_str());
                        out.append("$");
                        out
                    },
                    InlineFormat::Parentheses => {
                        let mut out = String::from_str("\\(");
                        out.append(core.as_str());
                        out.append("\\)");
                        out
                    },
                }
            } else {
                match format.block {
                    BlockFormat::DoubleDollar => {
                        let mut out = String::from_str("$$");
                        out.append(core.as_str());
                        out.append("$$");
                        out
                    },
                    BlockFormat::Brackets => {
                        let mut out = String::from_str("\\[");
                        out.append(core.as_str());
                        out.append("\\]");
                        out
                    },
                }
            }
        },
    }
}

/// `f` inserted into the descending-by-position sequence `s`, after any
/// element with the same position.
pub open spec fn insert_desc(f: FormulaBlock, s: Seq<FormulaBlock>) -> Seq<FormulaBlock>
    decreases s.len(),
{
    if s.len() == 0 {
        seq![f]
    } else if s[0].position >= f.position {
        seq![s[0]] + insert_desc(f, s.drop_first())
    } else {
        seq![f] + s
    }
}

/// `s` sorted by descending position.
pub open spec fn sort_desc(s: Seq<FormulaBlock>) -> Seq<FormulaBlock>
    decreases s.len(),
{
    if s.len() == 0 {
        Seq::empty()
    } else {
        insert_desc(s[0], sort_desc(s.drop_first()))
    }
}

/// Whether `s` is ordered by descending position.
pub open spec fn desc_sorted(s: Seq<FormulaBlock>) -> bool {
    forall|i: int, j: int| 0 <= i < j < s.len() ==> s[i].position >= s[j].position
}

/// Whether every fragment position in `s` is at most `n`.
pub open spec fn positions_le(s: Seq<FormulaBlock>, n: int) -> bool {
    forall|i: int| 0 <= i < s.len() ==> #[trigger] s[i].position <= n
}

proof fn lemma_insert_desc_multiset(f: FormulaBlock, s: Seq<FormulaBlock>)
    ensures
        insert_desc(f, s).to_multiset() == s.to_multiset().insert(f),
        insert_desc(f, s).len() == s.len() + 1,
    decreases s.len(),
{
    broadcast use vstd::seq_lib::group_seq_properties;

    if s.len() == 0 {
        assert(seq![f] =~= Seq::empty().push(f));
        assert(Seq::<FormulaBlock>::empty().to_multiset() == Multiset::<FormulaBlock>::empty());
    } else if s[0].position >= f.position {
        lemma_insert_desc_multiset(f, s.drop_first());
        assert(seq![s[0]] + insert_desc(f, s.drop_first()) =~= insert_desc(
            f,
            s.drop_first(),
        ).insert(0, s[0]));
        assert(s =~= s.drop_first().insert(0, s[0]));
    } else {
        assert(seq![f] + s =~= s.insert(0, f));
    }
}

proof fn lemma_sort_desc_multiset(s: Seq<FormulaBlock>)
    ensures
        sort_desc(s).to_multiset() == s.to_multiset(),
        sort_desc(s).len() == s.len(),
    decreases s.len(),
{
    broadcast use vstd::seq_lib::group_seq_properties;

    if s.len() == 0 {
    } else {
        lemma_sort_desc_multiset(s.drop_first());
        lemma_insert_desc_multiset(s[0], sort_desc(s.drop_first()));
        assert(s =~= s.drop_first().insert(0, s[0]));
    }
}

proof fn lemma_insert_desc_sorted(f: FormulaBlock, s: Seq<FormulaBlock>)
    requires
        desc_sorted(s),
    ensures
        desc_sorted(insert_desc(f, s)),
    decreases s.len(),
{
    if s.len() == 0 {
    } else if s[0].position >= f.position {
        assert(desc_sorted(s.drop_first()));
        lemma_insert_desc_sorted(f, s.drop_first());
        let r = seq![s[0]] + insert_desc(f, s.drop_first());
        let inner = insert_desc(f, s.drop_first());
        lemma_insert_desc_multiset(f, s.drop_first());
        // every element of inner is either f or an element of s.drop_first(),
        // so s[0] is >= all of them
        assert forall|j: int| 1 <= j < r.len() implies r[0].position >= #[trigger] r[j].position by {
            assert(inner[j - 1] == r[j]);
            assert(inner.contains(r[j]));
            lemma_insert_desc_positions(f, s.drop_first(), r[j]);
            if s.drop_first().contains(r[j]) {
                let k = choose|k: int|
                    0 <= k < s.drop_first().len() && s.drop_first()[k] == r[j];
                assert(s[k + 1] == r[j]);
                assert(s[0].position >= s[k + 1].position);
            }
        }
    } else {
        assert forall|j: int| 1 <= j < (seq![f] + s).len() implies f.position
            >= (seq![f] + s)[j].position by {
            assert((seq![f] + s)[j] == s[j - 1]);
            if j > 1 {
                assert(s[0].position >= s[j - 1].position);
            }
        }
    }
}

/// Every element of `insert_desc(f, s)` is `f` or an element of `s`.
proof fn lemma_insert_desc_positions(f: FormulaBlock, s: Seq<FormulaBlock>, x: FormulaBlock)
    requires
        insert_desc(f, s).contains(x),
    ensures
        x == f || s.contains(x),
    decreases s.len(),
{
    if s.len() == 0 {
        assert(insert_desc(f, s) =~= seq![f]);
    } else if s[0].position >= f.position {
        let r = seq![s[0]] + insert_desc(f, s.drop_first());
        let i = choose|i: int| 0 <= i < r.len() && r[i] == x;
        if i == 0 {
            assert(s.contains(x)) by {
                assert(s[0] == x);
            }
        } else {
            assert(insert_desc(f, s.drop_first())[i - 1] == x);
            assert(insert_desc(f, s.drop_first()).contains(x));
            lemma_insert_desc_positions(f, s.drop_first(), x);
            if s.drop_first().contains(x) {
                let k = choose|k: int| 0 <= k < s.drop_first().len() && s.drop_first()[k] == x;
                assert(s[k + 1] == x);
            }
        }
    } else {
        let r = seq![f] + s;
        let i = choose|i: int| 0 <= i < r.len() && r[i] == x;
        if i > 0 {
            assert(s[i - 1] == x);
        }
    }
}

/// Every element of `sort_desc(s)` is an element of `s`.
proof fn lemma_sort_desc_contains(s: Seq<FormulaBlock>, x: FormulaBlock)
    requires
        sort_desc(s).contains(x),
    ensures
        s.contains(x),
    decreases s.len(),
{
    if s.len() == 0 {
    } else {
        lemma_insert_desc_positions(s[0], sort_desc(s.drop_first()), x);
        if x == s[0] {
            assert(s[0] == x);
        } else {
            lemma_sort_desc_contains(s.drop_first(), x);
            let k = choose|k: int| 0 <= k < s.drop_first().len() && s.drop_first()[k] == x;
            assert(s[k + 1] == x);
        }
    }
}

proof fn lemma_sort_desc_sorted(s: Seq<FormulaBlock>)
    ensures
        desc_sorted(sort_desc(s)),
    decreases s.len(),
{
    if s.len() == 0 {
    } else {
        lemma_sort_desc_sorted(s.drop_first());
        lemma_insert_desc_sorted(s[0], sort_desc(s.drop_first()));
    }
}

proof fn lemma_sort_desc_positions_le(s: Seq<FormulaBlock>, n: int)
    requires
        positions_le(s, n),
    ensures
        positions_le(sort_desc(s), n),
{
    lemma_sort_desc_multiset(s);
    assert forall|i: int| 0 <= i < sort_desc(s).len() implies #[trigger] sort_desc(
        s,
    )[i].position <= n by {
        assert(sort_desc(s).contains(sort_desc(s)[i]));
        lemma_sort_desc_contains(s, sort_desc(s)[i]);
    }
}

/// Inserts `f` into the descending-sorted vector `sorted`.
fn insert_desc_exec(f: FormulaBlock, sorted: &mut Vec<FormulaBlock>)
    ensures
        final(sorted)@ == insert_desc(f, old(sorted)@),
{
    let ghost orig = sorted@;
    let mut i: usize = 0;
    while i < sorted.len() && sorted[i].position >= f.position
        invariant
            0 <= i <= sorted@.len(),
            sorted@ == orig,
            forall|k: int| 0 <= k < i ==> orig[k].position >= f.position,
        decreases sorted@.len() - i,
    {
        i = i + 1;
    }
    proof {
        lemma_insert_desc_split(f, orig, i as int);
    }
    sorted.insert(i, f);
}

/// Where the scan stopped, `insert_desc` places `f`.
proof fn lemma_insert_desc_split(f: FormulaBlock, s: Seq<FormulaBlock>, i: int)
    requires
        0 <= i <= s.len(),
        forall|k: int| 0 <= k < i ==> s[k].position >= f.position,
        i == s.len() || s[i].position < f.position,
    ensures
        insert_desc(f, s) == s.take(i) + seq![f] + s.skip(i),
    decreases i,
{
    if i == 0 {
        if s.len() == 0 {
            assert(insert_desc(f, s) =~= s.take(0) + seq![f] + s.skip(0));
        } else {
            assert(insert_desc(f, s) =~= s.take(0) + seq![f] + s.skip(0));
        }
    } else {
        lemma_insert_desc_split(f, s.drop_first(), i - 1);
        assert(insert_desc(f, s) == seq![s[0]] + insert_desc(f, s.drop_first()));
        assert(seq![s[0]] + (s.drop_first().take(i - 1) + seq![f] + s.drop_first().skip(i - 1))
            =~= s.take(i) + seq![f] + s.skip(i));
    }
}

/// `formulas` sorted by descending position.
fn sort_formulas_desc(formulas: &Vec<FormulaBlock>) -> (r: Vec<FormulaBlock>)
    ensures
        r@ == sort_desc(formulas@),
{
    let mut out: Vec<FormulaBlock> = Vec::new();
    let n: usize = formulas.len();
    let mut i: usize = n;
    while i > 0
        invariant
            0 <= i <= n,
            n == formulas@.len(),
            out@ == sort_desc(formulas@.skip(i as int)),
        decreases i,
    {
        i = i - 1;
        let f = formulas[i].duplicate();
        proof {
            assert(formulas@.skip(i as int).drop_first() =~= formulas@.skip(i as int + 1));
            assert(formulas@.skip(i as int)[0] == formulas@[i as int]);
        }
        insert_desc_exec(f, &mut out);
    }
    proof {
        assert(formulas@.skip(0) =~= formulas@);
    }
    out
}

/// Fragments applied to `text` front to back: each is inserted at its
/// position into the text produced so far.
pub open spec fn splice_fold(text: Seq<char>, fs: Seq<FormulaBlock>, style: MarkupStyle) -> Seq<
    char,
>
    decreases fs.len(),
{
    if fs.len() == 0 {
        text
    } else {
        splice_fold(
            splice_spec(text, fs[0].position as int, formula_markup_spec(fs[0], style)),
            fs.drop_first(),
            style,
        )
    }
}

/// The body text of a section with every fragment spliced in, highest offset
/// first.
pub open spec fn spliced_text_spec(
    text: Seq<char>,
    fs: Seq<FormulaBlock>,
    style: MarkupStyle,
) -> Seq<char> {
    splice_fold(text, sort_desc(fs), style)
}

/// Splices every fragment into `text`, applying them in descending-offset
/// order so that each remaining offset stays valid.
fn splice_formulas(text: &str, formulas: &Vec<FormulaBlock>, style: MarkupStyle) -> (r: String)
    requires
        positions_le(formulas@, text@.len() as int),
    ensures
        r@ == spliced_text_spec(text@, formulas@, style),
{
    let sorted = sort_formulas_desc(formulas);
    proof {
        lemma_sort_desc_positions_le(formulas@, text@.len() as int);
    }
    let mut cur: String = text.to_owned();
    let n: usize = sorted.len();
    proof {
        assert(sorted@.skip(0) =~= sorted@);
    }
    let mut i: usize = 0;
    while i < n
        invariant
            0 <= i <= n,
            n == sorted@.len(),
            sorted@ == sort_desc(formulas@),
            positions_le(sorted@.skip(i as int), cur@.len() as int),
            splice_fold(cur@, sorted@.skip(i as int), style) == spliced_text_spec(
                text@,
                formulas@,
                style,
            ),
        decreases n - i,
    {
        let f = &sorted[i];
        let markup = formula_markup(f, style);
        proof {
            assert(sorted@.skip(i as int)[0] == sorted@[i as int]);
        }
        let next = splice_string(cur.as_str(), f.position, markup.as_str());
        proof {
            assert(sorted@.skip(i as int).drop_first() =~= sorted@.skip(i as int + 1));
            assert forall|k: int| 0 <= k < sorted@.skip(i as int + 1).len()
                implies #[trigger] sorted@.skip(i as int + 1)[k].position <= next@.len() as int by {
                assert(sorted@.skip(i as int)[k + 1] == sorted@.skip(i as int + 1)[k]);
                assert(next@.len() >= cur@.len());
            }
        }
        cur = next;
        i = i + 1;
    }
    proof {
        assert(sorted@.skip(n as int) =~= Seq::<FormulaBlock>::empty());
    }
    cur
}

/// Appends `pre + v + post` when `v` is present, nothing otherwise.
fn append_opt_wrapped(out: &mut String, pre: &str, v: &Option<String>, post: &str)
    ensures
        final(out)@ == old(out)@ + (match v {
            Some(x) => pre@ + x@ + post@,
            None => Seq::<char>::empty(),
        }),
{
    match v {
        Some(x) => {
            out.append(pre);
            out.append(x.as_str());
            out.append(post);
        },
        None => {
            proof {
                assert(old(out)@ + Seq::<char>::empty() =~= old(out)@);
            }
        },
    }
}

/// A title or heading underlined with `unit`, one underline character per
/// character of the text, followed by a blank line.
pub open spec fn underlined_spec(t: Option<String>, c: char) -> Seq<char> {
    match t {
        Some(t) => t@ + "\n"@ + repeat_char_spec(c, t@.len()) + "\n\n"@,
        None => Seq::empty(),
    }
}

fn append_underlined(out: &mut String, v: &Option<String>, unit: &str)
    requires
        unit@.len() == 1,
    ensures
        final(out)@ == old(out)@ + underlined_spec(*v, unit@[0]),
{
    match v {
        Some(t) => {
            out.append(t.as_str());
            out.append("\n");
            let rep = repeat_str(unit, t.as_str().unicode_len());
            out.append(rep.as_str());
            out.append("\n\n");
        },
        None => {
            proof {
                assert(old(out)@ + Seq::<char>::empty() =~= old(out)@);
            }
        },
    }
}

/// `"inline"` or `"block"`, after a fragment's flag.
pub open spec fn inline_label_spec(is_inline: bool) -> Seq<char> {
    if is_inline {
        "inline"@
    } else {
        "block"@
    }
}

fn inline_label(is_inline: bool) -> (r: &'static str)
    ensures
        r@ == inline_label_spec(is_inline),
{
    if is_inline {
        "inline"
    } else {
        "block"
    }
}

// ---------------------------------------------------------------------------
// LaTeX document rendering
// ---------------------------------------------------------------------------

/// The fixed preamble of a rendered LaTeX document.
pub open spec fn latex_preamble() -> Seq<char> {
    "\\documentclass{article}\n\\usepackage{amsmath}\n\\usepackage{amsfonts}\n\\usepackage{amssymb}\n\\usepackage[utf8]{inputenc}\n\n\\begin{document}\n\n"@
}

/// The `\title`/`\maketitle` block for an optional title.
pub open spec fn latex_title_spec(t: Option<String>) -> Seq<char> {
    match t {
        Some(t) => "\\title{"@ + t@ + "}\n\\maketitle\n\n"@,
        None => Seq::empty(),
    }
}

/// The `\section` line for an optional heading.
pub open spec fn latex_heading_spec(h: Option<String>) -> Seq<char> {
    match h {
        Some(h) => "\\section{"@ + h@ + "}\n\n"@,
        None => Seq::empty(),
    }
}

/// One section of a LaTeX document: optional `\section`, then the body text
/// with fragments spliced in (omitted when the body text is empty).
pub open spec fn section_latex_spec(s: DocumentSection) -> Seq<char> {
    latex_heading_spec(s.heading) + (if s.text@.len() > 0 {
        spliced_text_spec(s.text@, s.formulas@, MarkupStyle::LatexDocument) + "\n\n"@
    } else {
        Seq::empty()
    })
}

/// The first `n` sections rendered as LaTeX, in order.
pub open spec fn sections_latex_spec(ss: Seq<DocumentSection>, n: int) -> Seq<char>
    decreases n,
{
    if n <= 0 {
        Seq::empty()
    } else {
        sections_latex_spec(ss, n - 1) + section_latex_spec(ss[n - 1])
    }
}

/// A whole document rendered as LaTeX.
pub open spec fn document_latex_spec(d: DocumentContent) -> Seq<char> {
    latex_preamble() + latex_title_spec(d.title) + sections_latex_spec(
        d.sections@,
        d.sections@.len() as int,
    ) + "\\end{document}"@
}

fn section_latex(s: &DocumentSection) -> (r: String)
    requires
        section_spliceable(*s),
    ensures
        r@ == section_latex_spec(*s),
{
    let mut out = String::new();
    append_opt_wrapped(&mut out, "\\section{", &s.heading, "}\n\n");
    if s.text.as_str().unicode_len() > 0 {
        let spliced = splice_formulas(s.text.as_str(), &s.formulas, MarkupStyle::LatexDocument);
        out.append(spliced.as_str());
        out.append("\n\n");
    }
    proof {
        assert(out@ =~= section_latex_spec(*s));
    }
    out
}

// ---------------------------------------------------------------------------
// Inline-LaTeX document rendering
// ---------------------------------------------------------------------------

/// One section with every fragment forced to `$...$` markup; the body text is
/// emitted even when empty.
pub open spec fn section_latex_inline_spec(s: DocumentSection) -> Seq<char> {
    latex_heading_spec(s.heading) + spliced_text_spec(
        s.text@,
        s.formulas@,
        MarkupStyle::AllInlineDollar,
    ) + "\n\n"@
}

/// The first `n` sections rendered with inline-forced LaTeX markup.
pub open spec fn sections_latex_inline_spec(ss: Seq<DocumentSection>, n: int) -> Seq<char>
    decreases n,
{
    if n <= 0 {
        Seq::empty()
    } else {
        sections_latex_inline_spec(ss, n - 1) + section_latex_inline_spec(ss[n - 1])
    }
}

fn section_latex_inline(s: &DocumentSection) -> (r: String)
    requires
        section_spliceable(*s),
    ensures
        r@ == section_latex_inline_spec(*s),
{
    let mut out = String::new();
    append_opt_wrapped(&mut out, "\\section{", &s.heading, "}\n\n");
    let spliced = splice_formulas(s.text.as_str(), &s.formulas, MarkupStyle::AllInlineDollar);
    out.append(spliced.as_str());
    out.append("\n\n");
    proof {
        assert(out@ =~= section_latex_inline_spec(*s));
    }
    out
}

// ---------------------------------------------------------------------------
// Block-LaTeX document rendering
// ---------------------------------------------------------------------------

/// The first `n` fragments as `$$...$$` blocks, each on its own blank-line
/// separated block.
pub open spec fn formulas_latex_block_spec(fs: Seq<FormulaBlock>, n: int) -> Seq<char>
    decreases n,
{
    if n <= 0 {
        Seq::empty()
    } else {
        formulas_latex_block_spec(fs, n - 1) + "$$"@ + trim_dollars_spec(fs[n - 1].latex@)
            + "$$\n\n"@
    }
}

/// One section in the block-LaTeX style: underlined heading, body text, then
/// every fragment as a display block.
pub open spec fn section_latex_block_spec(s: DocumentSection) -> Seq<char> {
    underlined_spec(s.heading, '-') + (if s.text@.len() > 0 {
        s.text@ + "\n\n"@
    } else {
        Seq::empty()
    }) + formulas_latex_block_spec(s.formulas@, s.formulas@.len() as int)
}

/// The first `n` sections in the block-LaTeX style.
pub open spec fn sections_latex_block_spec(ss: Seq<DocumentSection>, n: int) -> Seq<char>
    decreases n,
{
    if n <= 0 {
        Seq::empty()
    } else {
        sections_latex_block_spec(ss, n - 1) + section_latex_block_spec(ss[n - 1])
    }
}

/// A whole document in the block-LaTeX style: underlined title, then the
/// sections.
pub open spec fn document_latex_block_spec(d: DocumentContent) -> Seq<char> {
    underlined_spec(d.title, '=') + sections_latex_block_spec(
        d.sections@,
        d.sections@.len() as int,
    )
}

fn section_latex_block(s: &DocumentSection) -> (r: String)
    ensures
        r@ == section_latex_block_spec(*s),
{
    let mut out = String::new();
    proof {
        reveal_strlit("-");
    }
    append_underlined(&mut out, &s.heading, "-");
    if s.text.as_str().unicode_len() > 0 {
        out.append(s.text.as_str());
        out.append("\n\n");
    }
    let ghost before = out@;
    let n: usize = s.formulas.len();
    let mut i: usize = 0;
    while i < n
        invariant
            0 <= i <= n,
            n == s.formulas@.len(),
            out@ == before + formulas_latex_block_spec(s.formulas@, i as int),
        decreases n - i,
    {
        let core = trim_dollars(s.formulas[i].latex.as_str());
        out.append("$$");
        out.append(core.as_str());
        out.append("$$\n\n");
        i = i + 1;
    }
    proof {
        assert(out@ =~= section_latex_block_spec(*s));
    }
    out
}

// ---------------------------------------------------------------------------
// Markdown document rendering
// ---------------------------------------------------------------------------

/// The `# ` line for an optional title.
pub open spec fn md_title_spec(t: Option<String>) -> Seq<char> {
    match t {
        Some(t) => "# "@ + t@ + "\n\n"@,
        None => Seq::empty(),
    }
}

/// The `## ` line for an optional heading.
pub open spec fn md_heading_spec(h: Option<String>) -> Seq<char> {
    match h {
        Some(h) => "## "@ + h@ + "\n\n"@,
        None => Seq::empty(),
    }
}

/// One Markdown section: heading, then body text with fragments spliced in
/// (omitted when the body text is empty). `force_inline` forces every
/// fragment to the inline delimiter style.
pub open spec fn section_markdown_spec(
    s: DocumentSection,
    fmt: MarkdownFormulaFormat,
    force_inline: bool,
) -> Seq<char> {
    md_heading_spec(s.heading) + (if s.text@.len() > 0 {
        spliced_text_spec(
            s.text@,
            s.formulas@,
            MarkupStyle::Markdown { format: fmt, force_inline },
        ) + "\n\n"@
    } else {
        Seq::empty()
    })
}

/// The first `n` sections rendered as Markdown.
pub open spec fn sections_markdown_spec(
    ss: Seq<DocumentSection>,
    n: int,
    fmt: MarkdownFormulaFormat,
    force_inline: bool,
) -> Seq<char>
    decreases n,
{
    if n <= 0 {
        Seq::empty()
    } else {
        sections_markdown_spec(ss, n - 1, fmt, force_inline) + section_markdown_spec(
            ss[n - 1],
            fmt,
            force_inline,
        )
    }
}

/// A whole document rendered as Markdown.
pub open spec fn document_markdown_spec(
    d: DocumentContent,
    fmt: MarkdownFormulaFormat,
    force_inline: bool,
) -> Seq<char> {
    md_title_spec(d.title) + sections_markdown_spec(
        d.sections@,
        d.sections@.len() as int,
        fmt,
        force_inline,
    )
}

fn section_markdown(s: &DocumentSection, fmt: MarkdownFormulaFormat, force_inline: bool) -> (r:
    String)
    requires
        section_spliceable(*s),
    ensures
        r@ == section_markdown_spec(*s, fmt, force_inline),
{
    let mut out = String::new();
    append_opt_wrapped(&mut out, "## ", &s.heading, "\n\n");
    if s.text.as_str().unicode_len() > 0 {
        let spliced = splice_formulas(
            s.text.as_str(),
            &s.formulas,
            MarkupStyle::Markdown { format: fmt, force_inline },
        );
        out.append(spliced.as_str());
        out.append("\n\n");
    }
    proof {
        assert(out@ =~= section_markdown_spec(*s, fmt, force_inline));
    }
    out
}

// ---------------------------------------------------------------------------
// Block-Markdown document rendering
// ---------------------------------------------------------------------------

/// The first `n` fragments in the configured block delimiter style, blank-line
/// separated.
pub open spec fn formulas_md_block_spec(
    fs: Seq<FormulaBlock>,
    n: int,
    fmt: MarkdownFormulaFormat,
) -> Seq<char>
    decreases n,
{
    if n <= 0 {
        Seq::empty()
    } else {
        formulas_md_block_spec(fs, n - 1, fmt) + md_formula_spec(fs[n - 1].latex@, false, fmt)
            + "\n\n"@
    }
}

/// One block-Markdown section: heading, body text, then every fragment as a
/// block.
pub open spec fn section_md_block_spec(s: DocumentSection, fmt: MarkdownFormulaFormat) -> Seq<
    char,
> {
    md_heading_spec(s.heading) + (if s.text@.len() > 0 {
        s.text@ + "\n\n"@
    } else {
        Seq::empty()
    }) + formulas_md_block_spec(s.formulas@, s.formulas@.len() as int, fmt)
}

/// The first `n` sections in the block-Markdown style.
pub open spec fn sections_md_block_spec(
    ss: Seq<DocumentSection>,
    n: int,
    fmt: MarkdownFormulaFormat,
) -> Seq<char>
    decreases n,
{
    if n <= 0 {
        Seq::empty()
    } else {
        sections_md_block_spec(ss, n - 1, fmt) + section_md_block_spec(ss[n - 1], fmt)
    }
}

/// A whole document in the block-Markdown style.
pub open spec fn document_md_block_spec(d: DocumentContent, fmt: MarkdownFormulaFormat) -> Seq<
    char,
> {
    md_title_spec(d.title) + sections_md_block_spec(d.sections@, d.sections@.len() as int, fmt)
}

fn md_formula(latex: &str, is_inline: bool, fmt: MarkdownFormulaFormat) -> (r: String)
    ensures
        r@ == md_formula_spec(latex@, is_inline, fmt),
{
    let core = trim_dollars(latex);
    let mut out: String;
    if is_inline {
        match fmt.inline {
            InlineFormat::Dollar => {
                out = String::from_str("$");
                out.append(core.as_str());
                out.append("$");
            },
            InlineFormat::Parentheses => {
                out = String::from_str("\\(");
                out.append(core.as_str());
                out.append("\\)");
            },
        }
    } else {
        match fmt.block {
            BlockFormat::DoubleDollar => {
                out = String::from_str("$$");
                out.append(core.as_str());
                out.append("$$");
            },
            BlockFormat::Brackets => {
                out = String::from_str("\\[");
                out.append(core.as_str());
                out.append("\\]");
            },
        }
    }
    out
}

fn section_md_block(s: &DocumentSection, fmt: MarkdownFormulaFormat) -> (r: String)
    ensures
        r@ == section_md_block_spec(*s, fmt),
{
    let mut out = String::new();
    append_opt_wrapped(&mut out, "## ", &s.heading, "\n\n");
    if s.text.as_str().unicode_len() > 0 {
        out.append(s.text.as_str());
        out.append("\n\n");
    }
    let ghost before = out@;
    let n: usize = s.formulas.len();
    let mut i: usize = 0;
    while i < n
        invariant
            0 <= i <= n,
            n == s.formulas@.len(),
            out@ == before + formulas_md_block_spec(s.formulas@, i as int, fmt),
        decreases n - i,
    {
        let formula_md = md_formula(s.formulas[i].latex.as_str(), false, fmt);
        out.append(formula_md.as_str());
        out.append("\n\n");
        i = i + 1;
    }
    proof {
        assert(out@ =~= section_md_block_spec(*s, fmt));
    }
    out
}

// ---------------------------------------------------------------------------
// Plain-text document rendering
// ---------------------------------------------------------------------------

/// The first `n` fragments as a numbered plain-text list with inline/block
/// annotations.
pub open spec fn formulas_plain_spec(fs: Seq<FormulaBlock>, n: int) -> Seq<char>
    decreases n,
{
    if n <= 0 {
        Seq::empty()
    } else {
        formulas_plain_spec(fs, n - 1) + dec_digits(n as nat) + ". "@ + fs[n - 1].latex@ + " ("@
            + inline_label_spec(fs[n - 1].is_inline) + ")\n"@
    }
}

/// One plain-text section: underlined heading, body text, then the numbered
/// formula list when there are formulas.
pub open spec fn section_plain_spec(s: DocumentSection) -> Seq<char> {
    underlined_spec(s.heading, '-') + (if s.text@.len() > 0 {
        s.text@ + "\n\n"@
    } else {
        Seq::empty()
    }) + (if s.formulas@.len() > 0 {
        "Formulas:\n"@ + formulas_plain_spec(s.formulas@, s.formulas@.len() as int) + "\n"@
    } else {
        Seq::empty()
    })
}

/// The first `n` sections rendered as plain text.
pub open spec fn sections_plain_spec(ss: Seq<DocumentSection>, n: int) -> Seq<char>
    decreases n,
{
    if n <= 0 {
        Seq::empty()
    } else {
        sections_plain_spec(ss, n - 1) + section_plain_spec(ss[n - 1])
    }
}

/// A whole document rendered as plain text.
pub open spec fn document_plain_spec(d: DocumentContent) -> Seq<char> {
    underlined_spec(d.title, '=') + sections_plain_spec(d.sections@, d.sections@.len() as int)
}

fn section_plain(s: &DocumentSection) -> (r: String)
    ensures
        r@ == section_plain_spec(*s),
{
    let mut out = String::new();
    proof {
        reveal_strlit("-");
    }
    append_underlined(&mut out, &s.heading, "-");
    if s.text.as_str().unicode_len() > 0 {
        out.append(s.text.as_str());
        out.append("\n\n");
    }
    if s.formulas.len() > 0 {
        out.append("Formulas:\n");
        let ghost before = out@;
        let n: usize = s.formulas.len();
        let mut i: usize = 0;
        while i < n
            invariant
                0 <= i < n + 1,
                n == s.formulas@.len(),
                out@ == before + formulas_plain_spec(s.formulas@, i as int),
            decreases n - i,
        {
            let num = usize_to_string(i + 1);
            out.append(num.as_str());
            out.append(". ");
            out.append(s.formulas[i].latex.as_str());
            out.append(" (");
            out.append(inline_label(s.formulas[i].is_inline));
            out.append(")\n");
            i = i + 1;
        }
        out.append("\n");
    }
    proof {
        assert(out@ =~= section_plain_spec(*s));
    }
    out
}

// ---------------------------------------------------------------------------
// Structured-placeholder (DOCX) document rendering
// ---------------------------------------------------------------------------

/// The first `n` fragments as numbered `Formula j:` lines.
pub open spec fn formulas_docx_spec(fs: Seq<FormulaBlock>, n: int) -> Seq<char>
    decreases n,
{
    if n <= 0 {
        Seq::empty()
    } else {
        formulas_docx_spec(fs, n - 1) + "Formula "@ + dec_digits(n as nat) + ": "@ + fs[n
            - 1].latex@ + " ("@ + inline_label_spec(fs[n - 1].is_inline) + ")\n"@
    }
}

/// One labeled section of the placeholder structured export; `idx` is its
/// zero-based position in the document.
pub open spec fn section_docx_spec(s: DocumentSection, idx: int) -> Seq<char> {
    "Section "@ + dec_digits((idx + 1) as nat) + ":\n"@ + (match s.heading {
        Some(h) => "Heading: "@ + h@ + "\n"@,
        None => Seq::empty(),
    }) + (if s.text@.len() > 0 {
        "Text: "@ + s.text@ + "\n"@
    } else {
        Seq::empty()
    }) + formulas_docx_spec(s.formulas@, s.formulas@.len() as int) + "\n"@
}

/// The first `n` sections of the placeholder structured export.
pub open spec fn sections_docx_spec(ss: Seq<DocumentSection>, n: int) -> Seq<char>
    decreases n,
{
    if n <= 0 {
        Seq::empty()
    } else {
        sections_docx_spec(ss, n - 1) + section_docx_spec(ss[n - 1], n - 1)
    }
}

/// A whole document as the labeled plain-text placeholder for DOCX.
pub open spec fn document_docx_spec(d: DocumentContent) -> Seq<char> {
    "DOCX Export:\n\n"@ + (match d.title {
        Some(t) => "Title: "@ + t@ + "\n\n"@,
        None => Seq::empty(),
    }) + sections_docx_spec(d.sections@, d.sections@.len() as int)
}

fn section_docx(s: &DocumentSection, idx: usize) -> (r: String)
    requires
        idx < usize::MAX,
    ensures
        r@ == section_docx_spec(*s, idx as int),
{
    let mut out = String::from_str("Section ");
    let num = usize_to_string(idx + 1);
    out.append(num.as_str());
    out.append(":\n");
    append_opt_wrapped(&mut out, "Heading: ", &s.heading, "\n");
    if s.text.as_str().unicode_len() > 0 {
        out.append("Text: ");
        out.append(s.text.as_str());
        out.append("\n");
    }
    let ghost before = out@;
    let n: usize = s.formulas.len();
    let mut i: usize = 0;
    while i < n
        invariant
            0 <= i <= n,
            n == s.formulas@.len(),
            out@ == before + formulas_docx_spec(s.formulas@, i as int),
        decreases n - i,
    {
        out.append("Formula ");
        let fnum = usize_to_string(i + 1);
        out.append(fnum.as_str());
        out.append(": ");
        out.append(s.formulas[i].latex.as_str());
        out.append(" (");
        out.append(inline_label(s.formulas[i].is_inline));
        out.append(")\n");
        i = i + 1;
    }
    out.append("\n");
    proof {
        assert(out@ =~= section_docx_spec(*s, idx as int));
    }
    out
}

// ---------------------------------------------------------------------------
// HTML document rendering
// ---------------------------------------------------------------------------

/// The fixed HTML head: charset, title, math-rendering script references, and
/// stylesheet.
pub open spec fn html_header() -> Seq<char> {
    "<!DOCTYPE html>\n<html>\n<head>\n<meta charset=\"utf-8\">\n<title>Mathematical Formula</title>\n<script src=\"https://polyfill.io/v3/polyfill.min.js?features=es6\"></script>\n<script id=\"MathJax-script\" async src=\"https://cdn.jsdelivr.net/npm/mathjax@3/es5/tex-mml-chtml.js\"></script>\n<script>\nwindow.MathJax = {\n  tex: {\n    inlineMath: [['$', '$'], ['\\\\(', '\\\\)']],\n    displayMath: [['$$', '$$'], ['\\\\[', '\\\\]']]\n  }\n};\n</script>\n<style>\nbody { font-family: serif; margin: 2rem; line-height: 1.6; }\n.formula { text-align: center; margin: 1rem 0; }\n.document-title { text-align: center; font-size: 1.5em; margin-bottom: 2rem; }\n.section-heading { font-size: 1.2em; margin: 1.5rem 0 1rem 0; }\n</style>\n</head>\n<body>\n"@
}

/// The first `n` paragraphs as `<p>` elements; blank paragraphs are skipped
/// and each kept paragraph is trimmed.
pub open spec fn paragraphs_html_spec(ps: Seq<Seq<char>>, n: int) -> Seq<char>
    decreases n,
{
    if n <= 0 {
        Seq::empty()
    } else {
        paragraphs_html_spec(ps, n - 1) + (if trim_ws_spec(ps[n - 1]).len() > 0 {
            "<p>"@ + trim_ws_spec(ps[n - 1]) + "</p>\n"@
        } else {
            Seq::empty()
        })
    }
}

/// One HTML section: optional `<h2>` heading, then the spliced body text
/// split on blank lines into paragraphs.
pub open spec fn section_html_spec(s: DocumentSection) -> Seq<char> {
    (match s.heading {
        Some(h) => "<h2 class=\"section-heading\">"@ + h@ + "</h2>\n"@,
        None => Seq::empty(),
    }) + (if s.text@.len() > 0 {
        paragraphs_html_spec(
            split_paragraphs(spliced_text_spec(s.text@, s.formulas@, MarkupStyle::HtmlDollar)),
            split_paragraphs(
                spliced_text_spec(s.text@, s.formulas@, MarkupStyle::HtmlDollar),
            ).len() as int,
        )
    } else {
        Seq::empty()
    }) + "\n"@
}

/// The first `n` sections rendered as HTML.
pub open spec fn sections_html_spec(ss: Seq<DocumentSection>, n: int) -> Seq<char>
    decreases n,
{
    if n <= 0 {
        Seq::empty()
    } else {
        sections_html_spec(ss, n - 1) + section_html_spec(ss[n - 1])
    }
}

/// The trailing metadata block, when metadata inclusion is requested.
pub open spec fn html_metadata_spec(input_type: InputType, confidence: int) -> Seq<char> {
    "<hr>\n<div class=\"metadata\">\n<small>\nGenerated by MathSeek<br>\nInput Type: "@ + (match input_type {
        InputType::SingleFormula => "SingleFormula"@,
        InputType::Document => "Document"@,
    }) + "<br>\nConfidence: "@ + thousandths_spec(confidence) + "<br>\n</small>\n</div>\n"@
}

/// A whole result rendered as a self-contained HTML document.
pub open spec fn html_spec(result: FormulaResult, include_metadata: bool) -> Seq<char> {
    html_header() + (match result.content {
        ResultContent::SingleFormula(latex) => "<div class=\"formula\">\n$$"@ + trim_dollars_spec(
            latex@,
        ) + "$$\n</div>\n"@,
        ResultContent::Document(d) => (match d.title {
            Some(t) => "<h1 class=\"document-title\">"@ + t@ + "</h1>\n"@,
            None => Seq::empty(),
        }) + sections_html_spec(d.sections@, d.sections@.len() as int),
    }) + (if include_metadata {
        html_metadata_spec(result.input_type, result.confidence as int)
    } else {
        Seq::empty()
    }) + "</body>\n</html>"@
}

fn section_html(s: &DocumentSection) -> (r: String)
    requires
        section_spliceable(*s),
    ensures
        r@ == section_html_spec(*s),
{
    let mut out = String::new();
    append_opt_wrapped(&mut out, "<h2 class=\"section-heading\">", &s.heading, "</h2>\n");
    if s.text.as_str().unicode_len() > 0 {
        let spliced = splice_formulas(s.text.as_str(), &s.formulas, MarkupStyle::HtmlDollar);
        let paragraphs = split_paragraphs_exec(spliced.as_str());
        let ghost ps = split_paragraphs(spliced@);
        let ghost before = out@;
        let n: usize = paragraphs.len();
        proof {
            assert(paragraphs.deep_view().len() == paragraphs@.len());
        }
        let mut i: usize = 0;
        while i < n
            invariant
                0 <= i <= n,
                n == paragraphs@.len(),
                paragraphs.deep_view() == ps,
                n == ps.len(),
                out@ == before + paragraphs_html_spec(ps, i as int),
            decreases n - i,
        {
            proof {
                assert(paragraphs.deep_view()[i as int] == paragraphs@[i as int]@);
            }
            let trimmed = trim_ws(paragraphs[i].as_str());
            if trimmed.as_str().unicode_len() > 0 {
                out.append("<p>");
                out.append(trimmed.as_str());
                out.append("</p>\n");
            }
            i = i + 1;
        }
    }
    out.append("\n");
    proof {
        assert(out@ =~= section_html_spec(*s));
    }
    out
}

// ---------------------------------------------------------------------------
// Laws of the splicing algorithm
// ---------------------------------------------------------------------------

/// Whether all fragments in `s` sit at pairwise distinct offsets.
pub open spec fn distinct_positions(s: Seq<FormulaBlock>) -> bool {
    forall|i: int, j: int| 0 <= i < j < s.len() ==> s[i].position != s[j].position
}

proof fn lemma_distinct_no_duplicates(s: Seq<FormulaBlock>)
    requires
        distinct_positions(s),
    ensures
        s.no_duplicates(),
{
    assert forall|i: int, j: int| 0 <= i < s.len() && 0 <= j < s.len() && i != j implies s[i]
        != s[j] by {
        if i < j {
            assert(s[i].position != s[j].position);
        } else {
            assert(s[j].position != s[i].position);
        }
    }
}

proof fn lemma_sort_desc_distinct(s: Seq<FormulaBlock>)
    requires
        distinct_positions(s),
    ensures
        distinct_positions(sort_desc(s)),
{
    let sd = sort_desc(s);
    lemma_sort_desc_multiset(s);
    assert forall|i: int, j: int| 0 <= i < j < sd.len() implies sd[i].position
        != sd[j].position by {
        lemma_distinct_no_duplicates(s);
        s.lemma_multiset_has_no_duplicates();
        sd.lemma_multiset_has_no_duplicates_conv();
        assert(sd[i] != sd[j]);
        assert(sd.contains(sd[i]));
        assert(sd.contains(sd[j]));
        lemma_sort_desc_contains(s, sd[i]);
        lemma_sort_desc_contains(s, sd[j]);
        let p = choose|p: int| 0 <= p < s.len() && s[p] == sd[i];
        let q = choose|q: int| 0 <= q < s.len() && s[q] == sd[j];
        assert(p != q);
        if p < q {
            assert(s[p].position != s[q].position);
        } else {
            assert(s[q].position != s[p].position);
        }
    }
}

proof fn lemma_desc_sorted_unique(s1: Seq<FormulaBlock>, s2: Seq<FormulaBlock>)
    requires
        desc_sorted(s1),
        desc_sorted(s2),
        s1.to_multiset() == s2.to_multiset(),
        distinct_positions(s1),
    ensures
        s1 == s2,
    decreases s1.len(),
{
    broadcast use vstd::seq_lib::group_to_multiset_ensures;

    assert(s1.len() == s1.to_multiset().len());
    assert(s2.len() == s2.to_multiset().len());
    assert(s1.len() == s2.len());
    if s1.len() == 0 {
        assert(s1 =~= s2);
    } else {
        assert(s1.to_multiset().count(s1[0]) > 0) by {
            assert(s1.contains(s1[0]));
        }
        assert(s2.contains(s1[0]));
        let k = choose|k: int| 0 <= k < s2.len() && s2[k] == s1[0];
        assert(s2.to_multiset().count(s2[0]) > 0) by {
            assert(s2.contains(s2[0]));
        }
        assert(s1.contains(s2[0]));
        let m = choose|m: int| 0 <= m < s1.len() && s1[m] == s2[0];
        // positions agree at the front
        assert(s2[0].position >= s2[k].position);
        assert(s1[0].position >= s1[m].position);
        assert(s1[0].position == s2[0].position);
        // distinct positions force the fronts to be the same element
        if m != 0 {
            assert(s1[0].position != s1[m].position);
        }
        assert(s1[0] == s2[0]);
        let r1 = s1.drop_first();
        let r2 = s2.drop_first();
        assert(r1 =~= s1.remove(0));
        assert(r2 =~= s2.remove(0));
        assert(r1.to_multiset() == r2.to_multiset());
        assert(desc_sorted(r1));
        assert(desc_sorted(r2));
        assert(distinct_positions(r1));
        lemma_desc_sorted_unique(r1, r2);
        assert forall|i: int| 0 <= i < s1.len() implies s1[i] == s2[i] by {
            if i > 0 {
                assert(r1[i - 1] == r2[i - 1]);
            }
        }
        assert(s1 =~= s2);
    }
}

/// Splicing is order independent: two fragment lists holding the same
/// fragments at pairwise distinct offsets produce the same spliced text,
/// whatever order they arrive in, because both are applied in descending
/// offset order.
pub proof fn lemma_splice_order_irrelevant(
    text: Seq<char>,
    a: Seq<FormulaBlock>,
    b: Seq<FormulaBlock>,
    style: MarkupStyle,
)
    requires
        a.to_multiset() == b.to_multiset(),
        distinct_positions(a),
    ensures
        spliced_text_spec(text, a, style) == spliced_text_spec(text, b, style),
{
    lemma_sort_desc_multiset(a);
    lemma_sort_desc_multiset(b);
    lemma_sort_desc_sorted(a);
    lemma_sort_desc_sorted(b);
    lemma_sort_desc_distinct(a);
    lemma_desc_sorted_unique(sort_desc(a), sort_desc(b));
}

/// Applying the lower-offset fragment first misplaces the later one:
/// inserting `m1` at `p1` lengthens the text, so a subsequent insertion at
/// `p2` lands after original offset `p2 - m1.len()`, not `p2` — it equals
/// the descending-order application of the shifted offsets. Descending
/// order avoids the shift.
pub proof fn lemma_ascending_insertion_shifts(
    text: Seq<char>,
    p1: int,
    m1: Seq<char>,
    p2: int,
    m2: Seq<char>,
)
    requires
        0 <= p1,
        p1 + m1.len() <= p2,
        p2 <= text.len() + m1.len(),
    ensures
        splice_spec(splice_spec(text, p1, m1), p2, m2) == splice_spec(
            splice_spec(text, p2 - m1.len(), m2),
            p1,
            m1,
        ),
{
    let lhs = splice_spec(splice_spec(text, p1, m1), p2, m2);
    let rhs = splice_spec(splice_spec(text, p2 - m1.len(), m2), p1, m1);
    assert(lhs =~= text.take(p1) + m1 + text.take(p2 - m1.len()).skip(p1) + m2 + text.skip(
        p2 - m1.len(),
    ));
    assert(rhs =~= text.take(p1) + m1 + text.take(p2 - m1.len()).skip(p1) + m2 + text.skip(
        p2 - m1.len(),
    ));
}

/// Two sections that hold the same fragments at pairwise distinct offsets
/// render identically in every splicing export, whatever order their
/// fragment lists arrive in.
pub proof fn lemma_section_render_order_irrelevant(
    s1: DocumentSection,
    s2: DocumentSection,
    fmt: MarkdownFormulaFormat,
    force_inline: bool,
)
    requires
        s1.heading == s2.heading,
        s1.text == s2.text,
        s1.formulas@.to_multiset() == s2.formulas@.to_multiset(),
        distinct_positions(s1.formulas@),
    ensures
        section_latex_spec(s1) == section_latex_spec(s2),
        section_latex_inline_spec(s1) == section_latex_inline_spec(s2),
        section_markdown_spec(s1, fmt, force_inline) == section_markdown_spec(
            s2,
            fmt,
            force_inline,
        ),
        section_html_spec(s1) == section_html_spec(s2),
{
    lemma_splice_order_irrelevant(
        s1.text@,
        s1.formulas@,
        s2.formulas@,
        MarkupStyle::LatexDocument,
    );
    lemma_splice_order_irrelevant(
        s1.text@,
        s1.formulas@,
        s2.formulas@,
        MarkupStyle::AllInlineDollar,
    );
    lemma_splice_order_irrelevant(
        s1.text@,
        s1.formulas@,
        s2.formulas@,
        MarkupStyle::Markdown { format: fmt, force_inline },
    );
    lemma_splice_order_irrelevant(s1.text@, s1.formulas@, s2.formulas@, MarkupStyle::HtmlDollar);
}

/// Exporting a single formula to any LaTeX variant and stripping the `'$'`
/// delimiters recovers the original formula text exactly, provided the
/// original carried no delimiters of its own.
pub proof fn lemma_single_formula_latex_roundtrip(
    result: FormulaResult,
    latex: String,
    fmt: MarkdownFormulaFormat,
    include_metadata: bool,
)
    requires
        result.content == ResultContent::SingleFormula(latex),
        latex@.len() == 0 || (latex@[0] != '$' && latex@[latex@.len() - 1] != '$'),
    ensures
        export_content_spec(result, ExportFormat::LaTeX, fmt, include_metadata) == latex@,
        trim_dollars_spec(
            export_content_spec(result, ExportFormat::LaTeXInline, fmt, include_metadata),
        ) == latex@,
        trim_dollars_spec(
            export_content_spec(result, ExportFormat::LaTeXBlock, fmt, include_metadata),
        ) == latex@,
{
    crate::text::lemma_trim_dollars_fixpoint(latex@);
    let t = trim_dollars_spec(latex@);
    reveal_strlit("$");
    reveal_strlit("$$");
    // inline: "$" + t + "$"
    let inline = export_content_spec(result, ExportFormat::LaTeXInline, fmt, include_metadata);
    assert(inline =~= seq!['$'] + t + seq!['$']);
    crate::text::lemma_trim_dollars_wrap(t);
    crate::text::lemma_trim_dollars_idempotent(latex@);
    assert(trim_dollars_spec(inline) == latex@);
    // block: "$$" + t + "$$"
    let block = export_content_spec(result, ExportFormat::LaTeXBlock, fmt, include_metadata);
    let inner = seq!['$'] + t + seq!['$'];
    assert(block =~= seq!['$'] + inner + seq!['$']);
    crate::text::lemma_trim_dollars_wrap(inner);
    assert(trim_dollars_spec(block) == trim_dollars_spec(inner));
}

// ---------------------------------------------------------------------------
// Export configuration, result, and the manager
// ---------------------------------------------------------------------------

/// What to export: the target format, whether to append metadata, an optional
/// template, and free-form options.
#[derive(Debug, Clone)]
pub struct ExportConfig {
    pub format: ExportFormat,
    pub include_metadata: bool,
    pub custom_template: Option<String>,
    pub format_options: Vec<(String, String)>,
}

impl Default for ExportConfig {
    /// LaTeX with metadata, no template, no options.
    fn default() -> (r: Self)
        ensures
            r.format is LaTeX,
            r.include_metadata,
            r.custom_template is None,
            r.format_options@.len() == 0,
    {
        ExportConfig {
            format: ExportFormat::LaTeX,
            include_metadata: true,
            custom_template: None,
            format_options: Vec::new(),
        }
    }
}

/// A finished export: the rendered text, the format used, and metadata.
#[derive(Debug, Clone)]
pub struct ExportResult {
    pub content: String,
    pub format: ExportFormat,
    pub metadata: ExportMetadata,
}

/// Metadata of one export operation.
#[derive(Debug, Clone, Copy, PartialEq, Eq, Structural)]
pub struct ExportMetadata {
    pub timestamp: u64,
    pub original_input_type: InputType,
    pub export_format: ExportFormat,
    pub character_count: usize,
    pub formula_count: usize,
    pub processing_time_ms: u64,
}

/// The number of formulas in the first `n` sections.
pub open spec fn count_formulas_spec(ss: Seq<DocumentSection>, n: int) -> int
    decreases n,
{
    if n <= 0 {
        0
    } else {
        count_formulas_spec(ss, n - 1) + ss[n - 1].formulas@.len()
    }
}

/// The total formula count of a result: 1 for a single formula, the sum over
/// all sections for a document.
pub open spec fn formula_count_spec(c: ResultContent) -> int {
    match c {
        ResultContent::SingleFormula(_) => 1,
        ResultContent::Document(d) => count_formulas_spec(d.sections@, d.sections@.len() as int),
    }
}

/// Splicing is defined for the result's content.
pub open spec fn result_spliceable(r: FormulaResult) -> bool {
    match r.content {
        ResultContent::SingleFormula(_) => true,
        ResultContent::Document(d) => document_spliceable(d),
    }
}

/// Whether every fragment offset of the document fits its section's body
/// text.
fn document_spliceable_exec(doc: &DocumentContent) -> (b: bool)
    ensures
        b == document_spliceable(*doc),
{
    let mut i: usize = 0;
    while i < doc.sections.len()
        invariant
            0 <= i <= doc.sections@.len(),
            forall|a: int| 0 <= a < i ==> section_spliceable(#[trigger] doc.sections@[a]),
        decreases doc.sections@.len() - i,
    {
        let section = &doc.sections[i];
        let text_len: usize = section.text.as_str().unicode_len();
        let mut j: usize = 0;
        while j < section.formulas.len()
            invariant
                0 <= j <= section.formulas@.len(),
                section == &doc.sections@[i as int],
                0 <= i < doc.sections@.len(),
                text_len == section.text@.len(),
                forall|k: int|
                    0 <= k < j ==> #[trigger] section.formulas@[k].position
                        <= section.text@.len(),
            decreases section.formulas@.len() - j,
        {
            if section.formulas[j].position > text_len {
                proof {
                    assert(!section_spliceable(doc.sections@[i as int]));
                }
                return false;
            }
            j = j + 1;
        }
        i = i + 1;
    }
    true
}

/// Whether every fragment offset of the result fits its section's body
/// text, so the splicing exports are defined for it.
pub fn is_spliceable(result: &FormulaResult) -> (b: bool)
    ensures
        b == result_spliceable(*result),
{
    match &result.content {
        ResultContent::SingleFormula(_) => true,
        ResultContent::Document(doc) => document_spliceable_exec(doc),
    }
}

/// The rendered text of an export, for every format and content shape.
pub open spec fn export_content_spec(
    result: FormulaResult,
    format: ExportFormat,
    fmt: MarkdownFormulaFormat,
    include_metadata: bool,
) -> Seq<char> {
    match format {
        ExportFormat::LaTeX => match result.content {
            ResultContent::SingleFormula(latex) => latex@,
            ResultContent::Document(d) => document_latex_spec(d),
        },
        ExportFormat::LaTeXInline => match result.content {
            ResultContent::SingleFormula(latex) => "$"@ + trim_dollars_spec(latex@) + "$"@,
            ResultContent::Document(d) => sections_latex_inline_spec(
                d.sections@,
                d.sections@.len() as int,
            ),
        },
        ExportFormat::LaTeXBlock => match result.content {
            ResultContent::SingleFormula(latex) => "$$"@ + trim_dollars_spec(latex@) + "$$"@,
            ResultContent::Document(d) => document_latex_block_spec(d),
        },
        ExportFormat::Markdown => match result.content {
            ResultContent::SingleFormula(latex) => md_formula_spec(latex@, true, fmt),
            ResultContent::Document(d) => document_markdown_spec(d, fmt, false),
        },
        ExportFormat::MarkdownInline => match result.content {
            ResultContent::SingleFormula(latex) => md_formula_spec(latex@, true, fmt),
            ResultContent::Document(d) => document_markdown_spec(d, fmt, true),
        },
        ExportFormat::MarkdownBlock => match result.content {
            ResultContent::SingleFormula(latex) => md_formula_spec(latex@, false, fmt),
            ResultContent::Document(d) => document_md_block_spec(d, fmt),
        },
        ExportFormat::HTML => html_spec(result, include_metadata),
        ExportFormat::DOCX => match result.content {
            ResultContent::SingleFormula(latex) => "DOCX Export:\n\nFormula: "@ + latex@,
            ResultContent::Document(d) => document_docx_spec(d),
        },
        ExportFormat::PlainText => match result.content {
            ResultContent::SingleFormula(latex) => latex@,
            ResultContent::Document(d) => document_plain_spec(d),
        },
    }
}

/// The formats a result of the given classification can be exported to.
pub open spec fn available_formats_spec(input_type: InputType) -> Seq<ExportFormat> {
    match input_type {
        InputType::SingleFormula => seq![
            ExportFormat::LaTeX,
            ExportFormat::LaTeXInline,
            ExportFormat::LaTeXBlock,
            ExportFormat::Markdown,
            ExportFormat::MarkdownInline,
            ExportFormat::MarkdownBlock,
            ExportFormat::HTML,
            ExportFormat::PlainText,
        ],
        InputType::Document => seq![
            ExportFormat::LaTeX,
            ExportFormat::Markdown,
            ExportFormat::HTML,
            ExportFormat::DOCX,
            ExportFormat::PlainText,
        ],
    }
}

/// Renders recognized results into the supported output formats.
pub struct ExportManager {
    config: AppConfig,
}

impl ExportManager {
    /// A manager rendering with the given configuration.
    pub fn new(config: AppConfig) -> (r: Self)
        ensures
            r.spec_config() == config,
    {
        ExportManager { config }
    }

    /// The configuration the manager renders with.
    pub closed spec fn spec_config(&self) -> AppConfig {
        self.config
    }

    /// Replaces the configuration.
    pub fn update_config(&mut self, config: AppConfig)
        ensures
            final(self).spec_config() == config,
    {
        self.config = config;
    }

    /// Renders `result` in the format `export_config` names, and reports the
    /// format used, the output's character and formula counts, and timing.
    pub fn export_formula_result(
        &self,
        result: &FormulaResult,
        export_config: &ExportConfig,
    ) -> (r: MathSeekResult<ExportResult>)
        requires
            result_spliceable(*result),
        ensures
            r matches Ok(er) && er.content@ == export_content_spec(
                *result,
                export_config.format,
                self.spec_config().markdown_formula_format,
                export_config.include_metadata,
            ) && er.format == export_config.format && er.metadata.original_input_type
                == result.input_type && er.metadata.export_format == export_config.format
                && er.metadata.character_count == er.content@.len() && ({
                let c = formula_count_spec(result.content);
                er.metadata.formula_count == if c > usize::MAX {
                    usize::MAX as int
                } else {
                    c
                }
            }),
    {
        let start_time = clock::now_unix_millis();
        let content = match export_config.format {
            ExportFormat::LaTeX => self.export_to_latex(result, export_config),
            ExportFormat::LaTeXInline => self.export_to_latex_inline(result, export_config),
            ExportFormat::LaTeXBlock => self.export_to_latex_block(result, export_config),
            ExportFormat::Markdown => self.export_to_markdown(result, export_config),
            ExportFormat::MarkdownInline => self.export_to_markdown_inline(result, export_config),
            ExportFormat::MarkdownBlock => self.export_to_markdown_block(result, export_config),
            ExportFormat::HTML => self.export_to_html(result, export_config),
            ExportFormat::DOCX => self.export_to_docx(result, export_config),
            ExportFormat::PlainText => self.export_to_plain_text(result, export_config),
        };
        let end_time = clock::now_unix_millis();
        let formula_count = count_result_formulas(result);
        let metadata = ExportMetadata {
            timestamp: end_time,
            original_input_type: result.input_type,
            export_format: export_config.format,
            character_count: content.as_str().unicode_len(),
            formula_count,
            processing_time_ms: if end_time >= start_time {
                end_time - start_time
            } else {
                0
            },
        };
        Ok(ExportResult { content, format: export_config.format, metadata })
    }

    fn export_to_latex(&self, result: &FormulaResult, _config: &ExportConfig) -> (r: String)
        requires
            result_spliceable(*result),
        ensures
            r@ == export_content_spec(
                *result,
                ExportFormat::LaTeX,
                self.spec_config().markdown_formula_format,
                false,
            ),
    {
        match &result.content {
            ResultContent::SingleFormula(latex) => latex.clone(),
            ResultContent::Document(doc) => self.document_to_latex_inner(doc),
        }
    }

    fn export_to_latex_inline(&self, result: &FormulaResult, _config: &ExportConfig) -> (r:
        String)
        requires
            result_spliceable(*result),
        ensures
            r@ == export_content_spec(
                *result,
                ExportFormat::LaTeXInline,
                self.spec_config().markdown_formula_format,
                false,
            ),
    {
        match &result.content {
            ResultContent::SingleFormula(latex) => {
                let core = trim_dollars(latex.as_str());
                let mut out = String::from_str("$");
                out.append(core.as_str());
                out.append("$");
                out
            },
            ResultContent::Document(doc) => {
                let mut out = String::new();
                let ghost ss = doc.sections@;
                let n: usize = doc.sections.len();
                let mut i: usize = 0;
                while i < n
                    invariant
                        0 <= i <= n,
                        n == ss.len(),
                        ss == doc.sections@,
                        document_spliceable(*doc),
                        out@ == sections_latex_inline_spec(ss, i as int),
                    decreases n - i,
                {
                    let sec = section_latex_inline(&doc.sections[i]);
                    out.append(sec.as_str());
                    i = i + 1;
                }
                out
            },
        }
    }

    fn export_to_latex_block(&self, result: &FormulaResult, _config: &ExportConfig) -> (r: String)
        requires
            result_spliceable(*result),
        ensures
            r@ == export_content_spec(
                *result,
                ExportFormat::LaTeXBlock,
                self.spec_config().markdown_formula_format,
                false,
            ),
    {
        match &result.content {
            ResultContent::SingleFormula(latex) => {
                let core = trim_dollars(latex.as_str());
                let mut out = String::from_str("$$");
                out.append(core.as_str());
                out.append("$$");
                out
            },
            ResultContent::Document(doc) => {
                match self.document_to_latex_block(doc) {
                    Ok(s) => s,
                    Err(_) => String::new(),
                }
            },
        }
    }

    fn export_to_markdown(&self, result: &FormulaResult, _config: &ExportConfig) -> (r: String)
        requires
            result_spliceable(*result),
        ensures
            r@ == export_content_spec(
                *result,
                ExportFormat::Markdown,
                self.spec_config().markdown_formula_format,
                false,
            ),
    {
        match &result.content {
            ResultContent::SingleFormula(latex) => self.format_formula_for_markdown(
                latex.as_str(),
                true,
                &self.config.markdown_formula_format,
            ),
            ResultContent::Document(doc) => {
                match self.document_to_markdown(doc) {
                    Ok(s) => s,
                    Err(_) => String::new(),
                }
            },
        }
    }

    fn export_to_markdown_inline(&self, result: &FormulaResult, _config: &ExportConfig) -> (r:
        String)
        requires
            result_spliceable(*result),
        ensures
            r@ == export_content_spec(
                *result,
                ExportFormat::MarkdownInline,
                self.spec_config().markdown_formula_format,
                false,
            ),
    {
        match &result.content {
            ResultContent::SingleFormula(latex) => self.format_formula_for_markdown(
                latex.as_str(),
                true,
                &self.config.markdown_formula_format,
            ),
            ResultContent::Document(doc) => {
                match self.document_to_markdown_inline(doc) {
                    Ok(s) => s,
                    Err(_) => String::new(),
                }
            },
        }
    }

    fn export_to_markdown_block(&self, result: &FormulaResult, _config: &ExportConfig) -> (r:
        String)
        requires
            result_spliceable(*result),
        ensures
            r@ == export_content_spec(
                *result,
                ExportFormat::MarkdownBlock,
                self.spec_config().markdown_formula_format,
                false,
            ),
    {
        match &result.content {
            ResultContent::SingleFormula(latex) => self.format_formula_for_markdown(
                latex.as_str(),
                false,
                &self.config.markdown_formula_format,
            ),
            ResultContent::Document(doc) => {
                match self.document_to_markdown_block(doc) {
                    Ok(s) => s,
                    Err(_) => String::new(),
                }
            },
        }
    }

    fn export_to_html(&self, result: &FormulaResult, config: &ExportConfig) -> (r: String)
        requires
            result_spliceable(*result),
        ensures
            r@ == export_content_spec(
                *result,
                ExportFormat::HTML,
                self.spec_config().markdown_formula_format,
                config.include_metadata,
            ),
    {
        let mut html = String::from_str(
            "<!DOCTYPE html>\n<html>\n<head>\n<meta charset=\"utf-8\">\n<title>Mathematical Formula</title>\n<script src=\"https://polyfill.io/v3/polyfill.min.js?features=es6\"></script>\n<script id=\"MathJax-script\" async src=\"https://cdn.jsdelivr.net/npm/mathjax@3/es5/tex-mml-chtml.js\"></script>\n<script>\nwindow.MathJax = {\n  tex: {\n    inlineMath: [['$', '$'], ['\\\\(', '\\\\)']],\n    displayMath: [['$$', '$$'], ['\\\\[', '\\\\]']]\n  }\n};\n</script>\n<style>\nbody { font-family: serif; margin: 2rem; line-height: 1.6; }\n.formula { text-align: center; margin: 1rem 0; }\n.document-title { text-align: center; font-size: 1.5em; margin-bottom: 2rem; }\n.section-heading { font-size: 1.2em; margin: 1.5rem 0 1rem 0; }\n</style>\n</head>\n<body>\n",
        );
        match &result.content {
            ResultContent::SingleFormula(latex) => {
                let core = trim_dollars(latex.as_str());
                html.append("<div class=\"formula\">\n$$");
                html.append(core.as_str());
                html.append("$$\n</div>\n");
            },
            ResultContent::Document(doc) => {
                append_opt_wrapped(
                    &mut html,
                    "<h1 class=\"document-title\">",
                    &doc.title,
                    "</h1>\n",
                );
                let ghost head = html@;
                let ghost ss = doc.sections@;
                let n: usize = doc.sections.len();
                let mut i: usize = 0;
                while i < n
                    invariant
                        0 <= i <= n,
                        n == ss.len(),
                        ss == doc.sections@,
                        document_spliceable(*doc),
                        html@ == head + sections_html_spec(ss, i as int),
                    decreases n - i,
                {
                    let sec = section_html(&doc.sections[i]);
                    html.append(sec.as_str());
                    i = i + 1;
                }
            },
        }
        if config.include_metadata {
            html.append(
                "<hr>\n<div class=\"metadata\">\n<small>\nGenerated by MathSeek<br>\nInput Type: ",
            );
            let kind_label = result.input_type.as_string();
            html.append(kind_label.as_str());
            html.append("<br>\nConfidence: ");
            let conf = thousandths_to_string(result.confidence);
            html.append(conf.as_str());
            html.append("<br>\n</small>\n</div>\n");
        }
        html.append("</body>\n</html>");
        proof {
            assert(html@ =~= html_spec(*result, config.include_metadata));
        }
        html
    }

    fn export_to_docx(&self, result: &FormulaResult, _config: &ExportConfig) -> (r: String)
        ensures
            r@ == export_content_spec(
                *result,
                ExportFormat::DOCX,
                self.spec_config().markdown_formula_format,
                false,
            ),
    {
        match &result.content {
            ResultContent::SingleFormula(latex) => {
                let mut out = String::from_str("DOCX Export:\n\nFormula: ");
                out.append(latex.as_str());
                out
            },
            ResultContent::Document(doc) => {
                let mut out = String::from_str("DOCX Export:\n\n");
                append_opt_wrapped(&mut out, "Title: ", &doc.title, "\n\n");
                let ghost head = out@;
                let ghost ss = doc.sections@;
                let n: usize = doc.sections.len();
                let mut i: usize = 0;
                while i < n
                    invariant
                        0 <= i <= n,
                        n == ss.len(),
                        ss == doc.sections@,
                        out@ == head + sections_docx_spec(ss, i as int),
                    decreases n - i,
                {
                    let sec = section_docx(&doc.sections[i], i);
                    out.append(sec.as_str());
                    i = i + 1;
                }
                proof {
                    assert(out@ =~= document_docx_spec(*doc));
                }
                out
            },
        }
    }

    fn export_to_plain_text(&self, result: &FormulaResult, _config: &ExportConfig) -> (r: String)
        ensures
            r@ == export_content_spec(
                *result,
                ExportFormat::PlainText,
                self.spec_config().markdown_formula_format,
                false,
            ),
    {
        match &result.content {
            ResultContent::SingleFormula(latex) => latex.clone(),
            ResultContent::Document(doc) => {
                let mut out = String::new();
                proof {
                    reveal_strlit("=");
                }
                append_underlined(&mut out, &doc.title, "=");
                let ghost head = out@;
                let ghost ss = doc.sections@;
                let n: usize = doc.sections.len();
                let mut i: usize = 0;
                while i < n
                    invariant
                        0 <= i <= n,
                        n == ss.len(),
                        ss == doc.sections@,
                        out@ == head + sections_plain_spec(ss, i as int),
                    decreases n - i,
                {
                    let sec = section_plain(&doc.sections[i]);
                    out.append(sec.as_str());
                    i = i + 1;
                }
                proof {
                    assert(out@ =~= document_plain_spec(*doc));
                }
                out
            },
        }
    }

    /// Renders a whole document as LaTeX: preamble, optional title, each
    /// section with its fragments spliced in, and the closing line.
    fn document_to_latex_inner(&self, doc: &DocumentContent) -> (r: String)
        requires
            document_spliceable(*doc),
        ensures
            r@ == document_latex_spec(*doc),
    {
        let mut latex = String::from_str(
            "\\documentclass{article}\n\\usepackage{amsmath}\n\\usepackage{amsfonts}\n\\usepackage{amssymb}\n\\usepackage[utf8]{inputenc}\n\n\\begin{document}\n\n",
        );
        append_opt_wrapped(&mut latex, "\\title{", &doc.title, "}\n\\maketitle\n\n");
        let ghost head = latex@;
        let ghost ss = doc.sections@;
        let n: usize = doc.sections.len();
        let mut i: usize = 0;
        while i < n
            invariant
                0 <= i <= n,
                n == ss.len(),
                ss == doc.sections@,
                document_spliceable(*doc),
                latex@ == head + sections_latex_spec(ss, i as int),
            decreases n - i,
        {
            let sec = section_latex(&doc.sections[i]);
            latex.append(sec.as_str());
            i = i + 1;
        }
        latex.append("\\end{document}");
        proof {
            assert(latex@ =~= document_latex_spec(*doc));
        }
        latex
    }

    /// Renders a whole document as LaTeX.
    pub fn document_to_latex(&self, doc: &DocumentContent) -> (r: MathSeekResult<String>)
        requires
            document_spliceable(*doc),
        ensures
            r matches Ok(c) && c@ == document_latex_spec(*doc),
    {
        Ok(self.document_to_latex_inner(doc))
    }

    /// Renders a whole document in the block-LaTeX style: underlined title
    /// and headings, body text, and each fragment as a `$$...$$` block.
    pub fn document_to_latex_block(&self, doc: &DocumentContent) -> (r: MathSeekResult<String>)
        ensures
            r matches Ok(c) && c@ == document_latex_block_spec(*doc),
    {
        let mut out = String::new();
        proof {
            reveal_strlit("=");
        }
        append_underlined(&mut out, &doc.title, "=");
        let ghost head = out@;
        let ghost ss = doc.sections@;
        let n: usize = doc.sections.len();
        let mut i: usize = 0;
        while i < n
            invariant
                0 <= i <= n,
                n == ss.len(),
                ss == doc.sections@,
                out@ == head + sections_latex_block_spec(ss, i as int),
            decreases n - i,
        {
            let sec = section_latex_block(&doc.sections[i]);
            out.append(sec.as_str());
            i = i + 1;
        }
        proof {
            assert(out@ =~= document_latex_block_spec(*doc));
        }
        Ok(out)
    }

    /// Renders a whole document as Markdown, fragments in their own styles.
    pub fn document_to_markdown(&self, doc: &DocumentContent) -> (r: MathSeekResult<String>)
        requires
            document_spliceable(*doc),
        ensures
            r matches Ok(c) && c@ == document_markdown_spec(
                *doc,
                self.spec_config().markdown_formula_format,
                false,
            ),
    {
        Ok(self.document_to_markdown_styled(doc, false))
    }

    /// Renders a whole document as Markdown with every fragment forced to the
    /// inline delimiter style.
    pub fn document_to_markdown_inline(&self, doc: &DocumentContent) -> (r: MathSeekResult<
        String,
    >)
        requires
            document_spliceable(*doc),
        ensures
            r matches Ok(c) && c@ == document_markdown_spec(
                *doc,
                self.spec_config().markdown_formula_format,
                true,
            ),
    {
        Ok(self.document_to_markdown_styled(doc, true))
    }

    fn document_to_markdown_styled(&self, doc: &DocumentContent, force_inline: bool) -> (r:
        String)
        requires
            document_spliceable(*doc),
        ensures
            r@ == document_markdown_spec(
                *doc,
                self.spec_config().markdown_formula_format,
                force_inline,
            ),
    {
        let fmt = self.config.markdown_formula_format;
        let mut out = String::new();
        append_opt_wrapped(&mut out, "# ", &doc.title, "\n\n");
        let ghost head = out@;
        let ghost ss = doc.sections@;
        let n: usize = doc.sections.len();
        let mut i: usize = 0;
        while i < n
            invariant
                0 <= i <= n,
                n == ss.len(),
                ss == doc.sections@,
                document_spliceable(*doc),
                fmt == self.spec_config().markdown_formula_format,
                out@ == head + sections_markdown_spec(ss, i as int, fmt, force_inline),
            decreases n - i,
        {
            let sec = section_markdown(&doc.sections[i], fmt, force_inline);
            out.append(sec.as_str());
            i = i + 1;
        }
        proof {
            assert(out@ =~= document_markdown_spec(*doc, fmt, force_inline));
        }
        out
    }

    /// Renders a whole document in the block-Markdown style: headings, body
    /// text, then each fragment as a block in the configured style.
    pub fn document_to_markdown_block(&self, doc: &DocumentContent) -> (r: MathSeekResult<String>)
        ensures
            r matches Ok(c) && c@ == document_md_block_spec(
                *doc,
                self.spec_config().markdown_formula_format,
            ),
    {
        let fmt = self.config.markdown_formula_format;
        let mut out = String::new();
        append_opt_wrapped(&mut out, "# ", &doc.title, "\n\n");
        let ghost head = out@;
        let ghost ss = doc.sections@;
        let n: usize = doc.sections.len();
        let mut i: usize = 0;
        while i < n
            invariant
                0 <= i <= n,
                n == ss.len(),
                ss == doc.sections@,
                fmt == self.spec_config().markdown_formula_format,
                out@ == head + sections_md_block_spec(ss, i as int, fmt),
            decreases n - i,
        {
            let sec = section_md_block(&doc.sections[i], fmt);
            out.append(sec.as_str());
            i = i + 1;
        }
        proof {
            assert(out@ =~= document_md_block_spec(*doc, fmt));
        }
        Ok(out)
    }

    /// Writes one formula in the configured Markdown delimiters.
    pub fn format_formula_for_markdown(
        &self,
        latex: &str,
        is_inline: bool,
        format: &MarkdownFormulaFormat,
    ) -> (r: String)
        ensures
            r@ == md_formula_spec(latex@, is_inline, *format),
    {
        md_formula(latex, is_inline, *format)
    }

    /// The formats available for the given classification: every LaTeX and
    /// Markdown variant plus HTML and plain text for single formulas; plain
    /// LaTeX, plain Markdown, HTML, the structured placeholder, and plain
    /// text for documents.
    pub fn get_available_formats(&self, input_type: &InputType) -> (r: Vec<ExportFormat>)
        ensures
            r@ == available_formats_spec(*input_type),
    {
        let mut v: Vec<ExportFormat> = Vec::new();
        match input_type {
            InputType::SingleFormula => {
                v.push(ExportFormat::LaTeX);
                v.push(ExportFormat::LaTeXInline);
                v.push(ExportFormat::LaTeXBlock);
                v.push(ExportFormat::Markdown);
                v.push(ExportFormat::MarkdownInline);
                v.push(ExportFormat::MarkdownBlock);
                v.push(ExportFormat::HTML);
                v.push(ExportFormat::PlainText);
                proof {
                    assert(v@ =~= available_formats_spec(*input_type));
                }
            },
            InputType::Document => {
                v.push(ExportFormat::LaTeX);
                v.push(ExportFormat::Markdown);
                v.push(ExportFormat::HTML);
                v.push(ExportFormat::DOCX);
                v.push(ExportFormat::PlainText);
                proof {
                    assert(v@ =~= available_formats_spec(*input_type));
                }
            },
        }
        v
    }

    /// The configured default format for the classification, falling back to
    /// LaTeX for single formulas and Markdown for documents.
    pub fn get_default_format(&self, input_type: &InputType) -> (r: ExportFormat)
        ensures
            input_type is SingleFormula ==> r == (match self.spec_config(
            ).default_export_format.single_formula {
                Some(f) => f,
                None => ExportFormat::LaTeX,
            }),
            input_type is Document ==> r == (match self.spec_config(
            ).default_export_format.document {
                Some(f) => f,
                None => ExportFormat::Markdown,
            }),
    {
        match self.config.default_export_format.get(input_type) {
            Some(f) => f,
            None => match input_type {
                InputType::SingleFormula => ExportFormat::LaTeX,
                InputType::Document => ExportFormat::Markdown,
            },
        }
    }
}

/// Counts the formulas of a result, saturating at `usize::MAX`.
fn count_result_formulas(result: &FormulaResult) -> (r: usize)
    ensures
        r as int == ({
            let c = formula_count_spec(result.content);
            if c > usize::MAX {
                usize::MAX as int
            } else {
                c
            }
        }),
{
    match &result.content {
        ResultContent::SingleFormula(_) => 1,
        ResultContent::Document(doc) => {
            let mut count: usize = 0;
            let ghost ss = doc.sections@;
            let n: usize = doc.sections.len();
            let mut i: usize = 0;
            while i < n
                invariant
                    0 <= i <= n,
                    n == ss.len(),
                    ss == doc.sections@,
                    count as int == ({
                        let c = count_formulas_spec(ss, i as int);
                        if c > usize::MAX {
                            usize::MAX as int
                        } else {
                            c
                        }
                    }),
                decreases n - i,
            {
                let k: usize = doc.sections[i].formulas.len();
                if count <= usize::MAX - k {
                    count = count + k;
                } else {
                    count = usize::MAX;
                }
                i = i + 1;
            }
            count
        },
    }
}

} // verus!

