//! The legend of the interactive view: what it says, how wide its items
//! are on screen, and how they are spread over one line.
use vstd::arithmetic::div_mod::{lemma_fundamental_div_mod, lemma_mod_pos_bound};
use vstd::prelude::*;
use vstd::utf8::{decode_utf8, encode_utf8, encode_utf8_decode_utf8, valid_utf8};

use crate::pager::{screen_has_room, Area, NARROW_WIDTH};
use crate::text::{
    concat_all, contains_text, holds_text, join_texts, join_with, lemma_concat_next, occurs_at,
    push_char, texts,
};

verus! {

/// The bytes that are left of a text when its ANSI escape sequences are
/// taken out, as `strip_ansi_escapes::strip` returns them.
pub uninterp spec fn ansi_stripped(text: Seq<char>) -> Seq<u8>;

/// The number of terminal columns that a text takes, as
/// `unicode_width::UnicodeWidthStr::width` counts them.
pub uninterp spec fn text_width(text: Seq<char>) -> usize;

/// Takes the ANSI escape sequences out of a text.
///
/// Trusted: this is `strip_ansi_escapes::strip`; the contract only gives
/// its result the name [`ansi_stripped`].
#[verifier::external_body]
pub(crate) fn strip_ansi(text: &str) -> (bytes: Vec<u8>)
    ensures
        bytes@ == ansi_stripped(text@),
{
    strip_ansi_escapes::strip(text)
}

/// Reads bytes as UTF-8 text.
///
/// Trusted: this is `std::str::from_utf8`, of which the contract says that
/// it accepts exactly the valid UTF-8 byte sequences and then returns the
/// string whose UTF-8 encoding is those bytes.
#[verifier::external_body]
pub(crate) fn utf8_text(bytes: &Vec<u8>) -> (text: Option<&str>)
    ensures
        match text {
            Some(t) => valid_utf8(bytes@) && encode_utf8(t@) == bytes@,
            None => !valid_utf8(bytes@),
        },
{
    std::str::from_utf8(bytes).ok()
}

/// Measures the columns that a text takes on a terminal.
///
/// Trusted: this is `unicode_width::UnicodeWidthStr::width`; the contract
/// only gives its result the name [`text_width`].
#[verifier::external_body]
pub(crate) fn display_width(text: &str) -> (columns: usize)
    ensures
        columns == text_width(text@),
{
    unicode_width::UnicodeWidthStr::width(text)
}

/// The columns that a styled text takes on screen: the width of what is
/// left once the escape sequences are out, read as UTF-8, and the width of
/// the empty text where that is not valid UTF-8.
pub open spec fn visible_width_of(text: Seq<char>) -> usize {
    let bytes = ansi_stripped(text);
    if valid_utf8(bytes) {
        text_width(decode_utf8(bytes))
    } else {
        text_width(Seq::empty())
    }
}

/// The visible widths of a list of texts, in order.
pub open spec fn visible_widths(items: Seq<Seq<char>>) -> Seq<usize> {
    Seq::new(items.len(), |i: int| visible_width_of(items[i]))
}

/// The columns that a styled text takes on screen, styling not counted.
pub fn visible_width(text: &str) -> (columns: usize)
    ensures
        columns == visible_width_of(text@),
{
    let bytes = strip_ansi(text);
    match utf8_text(&bytes) {
        Some(plain) => {
            proof {
                encode_utf8_decode_utf8(plain@);
            }
            display_width(plain)
        },
        None => {
            proof {
                reveal_strlit("");
                assert(""@ =~= Seq::<char>::empty());
            }
            display_width("")
        },
    }
}

/// The sum of a list of widths.
pub open spec fn total_width(widths: Seq<usize>) -> nat
    decreases widths.len(),
{
    if widths.len() == 0 {
        0
    } else {
        total_width(widths.drop_last()) + widths.last() as nat
    }
}

/// `n` spaces.
pub open spec fn spaces(n: nat) -> Seq<char> {
    Seq::new(n, |i: int| ' ')
}

/// The width of gap `i` when `remaining` columns are spread over `gaps`
/// gaps: every gap gets the whole quotient, and the first gaps get one
/// column more each until the remainder is used up.
pub open spec fn gap_width(i: int, gaps: int, remaining: int) -> int {
    remaining / gaps + if i < remaining % gaps {
        1int
    } else {
        0int
    }
}

/// The widths of the first `k` gaps together.
pub open spec fn gap_total(k: int, gaps: int, remaining: int) -> int
    decreases k,
{
    if k <= 0 {
        0
    } else {
        gap_total(k - 1, gaps, remaining) + gap_width(k - 1, gaps, remaining)
    }
}

/// The items, each but the last followed by its gap.
pub open spec fn padded_items(items: Seq<Seq<char>>, remaining: int) -> Seq<Seq<char>> {
    Seq::new(
        items.len(),
        |i: int|
            if i < items.len() - 1 {
                items[i] + spaces(gap_width(i, items.len() - 1, remaining) as nat)
            } else {
                items[i]
            },
    )
}

/// The items spread over a line of `target` columns. Where there are fewer
/// than two items, or the items alone already take `target` columns or
/// more, they are joined with one space each. Otherwise the columns that
/// are left become the gaps between neighbours.
pub open spec fn justified(items: Seq<Seq<char>>, widths: Seq<usize>, target: u16) -> Seq<char> {
    if items.len() <= 1 || total_width(widths) >= target {
        join_with(items, " "@)
    } else {
        concat_all(padded_items(items, target - total_width(widths)))
    }
}

/// The first `k` of `gaps` gaps take `k` times the quotient, and one column
/// more for each of them that lies within the remainder.
pub proof fn lemma_gap_total(k: int, gaps: int, remaining: int)
    requires
        0 <= k <= gaps,
        0 < gaps,
        0 <= remaining,
    ensures
        gap_total(k, gaps, remaining) == k * (remaining / gaps) + if k < remaining % gaps {
            k
        } else {
            remaining % gaps
        },
    decreases k,
{
    let q = remaining / gaps;
    lemma_mod_pos_bound(remaining, gaps);
    if k > 0 {
        lemma_gap_total(k - 1, gaps, remaining);
        assert(k * q == (k - 1) * q + q) by (nonlinear_arith);
    } else {
        assert(k * q == 0) by (nonlinear_arith)
            requires
                k == 0,
        ;
    }
}

/// The first `k` padded items are as long as the first `k` items and the
/// gaps behind them.
pub proof fn lemma_padded_length(items: Seq<Seq<char>>, remaining: int, k: int)
    requires
        items.len() >= 2,
        0 <= remaining,
        0 <= k <= items.len(),
    ensures
        concat_all(padded_items(items, remaining).take(k)).len() == concat_all(items.take(k)).len()
            + gap_total(
            if k < items.len() - 1 {
                k
            } else {
                items.len() - 1
            },
            items.len() - 1,
            remaining,
        ),
    decreases k,
{
    let gaps = items.len() - 1;
    if k > 0 {
        lemma_padded_length(items, remaining, k - 1);
        lemma_concat_next(padded_items(items, remaining), k - 1);
        lemma_concat_next(items, k - 1);
        if k - 1 < gaps {
            lemma_fundamental_div_mod(remaining, gaps);
            assert(remaining / gaps >= 0) by (nonlinear_arith)
                requires
                    remaining >= 0,
                    gaps > 0,
            ;
        }
    } else {
        assert(padded_items(items, remaining).take(0) =~= Seq::<Seq<char>>::empty());
        assert(items.take(0) =~= Seq::<Seq<char>>::empty());
    }
}

/// Justification partitions the spare columns. For two or more items that
/// together take fewer columns than the target, the line is the items with
/// a gap of spaces behind each but the last; the gaps together are exactly
/// the spare columns; none is negative; any two differ by at most one; and
/// the line holds the spare columns and nothing else beyond the items.
pub proof fn law_justified_gaps_partition(items: Seq<Seq<char>>, widths: Seq<usize>, target: u16)
    requires
        items.len() >= 2,
        total_width(widths) < target,
    ensures
        justified(items, widths, target) == concat_all(
            padded_items(items, target - total_width(widths)),
        ),
        gap_total(items.len() - 1, items.len() - 1, target - total_width(widths)) == target
            - total_width(widths),
        forall|i: int|
            0 <= i < items.len() - 1 ==> 0 <= #[trigger] gap_width(
                i,
                items.len() - 1,
                target - total_width(widths),
            ),
        forall|i: int, j: int|
            0 <= i < items.len() - 1 && 0 <= j < items.len() - 1 ==> -1 <= #[trigger] gap_width(
                i,
                items.len() - 1,
                target - total_width(widths),
            ) - #[trigger] gap_width(j, items.len() - 1, target - total_width(widths)) <= 1,
        justified(items, widths, target).len() == concat_all(items).len() + (target - total_width(
            widths,
        )),
{
    let gaps = items.len() - 1;
    let remaining = target - total_width(widths);
    lemma_gap_total(gaps, gaps, remaining);
    lemma_fundamental_div_mod(remaining, gaps);
    assert(remaining / gaps >= 0) by (nonlinear_arith)
        requires
            remaining >= 0,
            gaps > 0,
    ;
    assert(gaps * (remaining / gaps) == (remaining / gaps) * gaps) by (nonlinear_arith);
    lemma_padded_length(items, remaining, items.len() as int);
    assert(padded_items(items, remaining).take(items.len() as int) =~= padded_items(
        items,
        remaining,
    ));
    assert(items.take(items.len() as int) =~= items);
}

fn push_spaces(line: &mut String, n: usize)
    ensures
        final(line)@ == old(line)@ + spaces(n as nat),
{
    let mut k: usize = 0;
    assert(line@ =~= old(line)@ + spaces(0));
    while k < n
        invariant
            k <= n,
            line@ == old(line)@ + spaces(k as nat),
        decreases n - k,
    {
        push_char(line, ' ');
        k = k + 1;
        assert(line@ =~= old(line)@ + spaces(k as nat));
    }
}

/// Spreads `items` over a line of `width` columns, given the columns that
/// each item takes on screen.
pub fn justify_with_widths(items: &[String], widths: &[usize], width: u16) -> (line: String)
    requires
        widths@.len() == items@.len(),
    ensures
        line@ == justified(texts(items@), widths@, width),
{
    let cap: usize = 65535;
    let mut total: usize = 0;
    let mut n: usize = 0;
    while n < widths.len()
        invariant
            n <= widths.len(),
            cap == 65535,
            total <= cap,
            total_width(widths@.take(n as int)) >= cap ==> total == cap,
            total_width(widths@.take(n as int)) < cap ==> total == total_width(
                widths@.take(n as int),
            ),
        decreases widths.len() - n,
    {
        assert(widths@.take(n + 1).drop_last() =~= widths@.take(n as int));
        if widths[n] >= cap - total {
            total = cap;
        } else {
            total = total + widths[n];
        }
        n = n + 1;
    }
    assert(widths@.take(widths.len() as int) =~= widths@);
    if items.len() <= 1 || total >= width as usize {
        return join_texts(items, " ");
    }
    let gaps = items.len() - 1;
    let remaining = width as usize - total;
    let space = remaining / gaps;
    let extra = remaining % gaps;
    assert(remaining / gaps <= remaining) by (nonlinear_arith)
        requires
            gaps >= 1,
            remaining >= 0,
    ;
    let ghost padded = padded_items(texts(items@), remaining as int);
    let mut line = String::new();
    let mut i: usize = 0;
    assert(padded.take(0) =~= Seq::<Seq<char>>::empty());
    while i < items.len()
        invariant
            i <= items.len(),
            gaps == items.len() - 1,
            gaps >= 1,
            space <= 65535,
            space == remaining / gaps,
            extra == remaining % gaps,
            padded == padded_items(texts(items@), remaining as int),
            line@ == concat_all(padded.take(i as int)),
        decreases items.len() - i,
    {
        let ghost before = line@;
        line.append(items[i].as_str());
        if i < gaps {
            let pad = space + if i < extra {
                1
            } else {
                0
            };
            push_spaces(&mut line, pad);
        }
        proof {
            lemma_concat_next(padded, i as int);
            assert(line@ =~= before + padded[i as int]);
        }
        i = i + 1;
    }
    assert(padded.take(items.len() as int) =~= padded);
    line
}

/// Spreads styled `items` over a line of `width` columns; each item counts
/// for the columns it takes on screen, its styling left out.
pub fn join_justify_between(items: &[String], width: u16) -> (line: String)
    ensures
        line@ == justified(texts(items@), visible_widths(texts(items@)), width),
{
    let mut widths: Vec<usize> = Vec::new();
    let mut i: usize = 0;
    while i < items.len()
        invariant
            i <= items.len(),
            widths@ == visible_widths(texts(items@)).take(i as int),
        decreases items.len() - i,
    {
        widths.push(visible_width(items[i].as_str()));
        assert(widths@ =~= visible_widths(texts(items@)).take(i + 1));
        i = i + 1;
    }
    assert(visible_widths(texts(items@)).take(items.len() as int) =~= visible_widths(
        texts(items@),
    ));
    justify_with_widths(items, widths.as_slice(), width)
}

/// How a piece of the legend is styled.
#[derive(Debug, Clone, Copy, PartialEq, Eq, Structural)]
pub enum LegendTone {
    /// The accent colour, bold: titles and navigation keys.
    Accent,
    /// Dark grey: what a key does.
    Muted,
    /// Red, bold: the keys that quit.
    Alert,
    /// No styling: the spaces between pieces.
    Plain,
}

/// A piece of a legend item: a text and how it is styled.
#[derive(Debug, Clone)]
pub struct LegendPart {
    pub text: String,
    pub tone: LegendTone,
}

/// The mathematical content of a [`LegendPart`].
pub struct LegendPartView {
    pub text: Seq<char>,
    pub tone: LegendTone,
}

impl View for LegendPart {
    type V = LegendPartView;

    open spec fn view(&self) -> LegendPartView {
        LegendPartView { text: self.text@, tone: self.tone }
    }
}

/// The form of the legend.
#[derive(Debug, Clone, Copy, PartialEq, Eq, Structural)]
pub enum LegendLayout {
    /// One hint per row, from the top left corner down.
    Stacked,
    /// All hints on the last row, spread over its width.
    Line,
}

/// The contents of a legend item, piece by piece.
pub open spec fn item_view(item: Seq<LegendPart>) -> Seq<LegendPartView> {
    Seq::new(item.len(), |i: int| item[i]@)
}

/// The contents of a legend, item by item.
pub open spec fn legend_view(items: Seq<Vec<LegendPart>>) -> Seq<Seq<LegendPartView>> {
    Seq::new(items.len(), |i: int| item_view(items[i]@))
}

/// A piece in the accent.
pub open spec fn accent(text: Seq<char>) -> LegendPartView {
    LegendPartView { text, tone: LegendTone::Accent }
}

/// A muted piece.
pub open spec fn muted(text: Seq<char>) -> LegendPartView {
    LegendPartView { text, tone: LegendTone::Muted }
}

/// A piece that warns.
pub open spec fn alert(text: Seq<char>) -> LegendPartView {
    LegendPartView { text, tone: LegendTone::Alert }
}

/// One unstyled space.
pub open spec fn gap() -> LegendPartView {
    LegendPartView { text: " "@, tone: LegendTone::Plain }
}

/// The title of the legend.
pub open spec fn title_item(app_name: Seq<char>) -> Seq<LegendPartView> {
    seq![accent(app_name + " Help"@)]
}

/// The hint for scrolling by line.
pub open spec fn line_scroll_item() -> Seq<LegendPartView> {
    seq![accent("↑"@), gap(), muted("/"@), gap(), accent("↓"@), gap(), muted("Scroll"@)]
}

/// The hint for scrolling by page; the stacked form is written tighter.
pub open spec fn page_scroll_item(layout: LegendLayout) -> Seq<LegendPartView> {
    match layout {
        LegendLayout::Stacked => seq![
            accent("PgUp"@),
            muted("/"@),
            accent("Dn"@),
            gap(),
            muted("Page"@),
        ],
        LegendLayout::Line => seq![
            accent("PgUp"@),
            gap(),
            muted("/"@),
            gap(),
            accent("Dn"@),
            gap(),
            muted("Page"@),
        ],
    }
}

/// The hint for scrolling with the mouse.
pub open spec fn mouse_item() -> Seq<LegendPartView> {
    seq![accent("Mouse"@), gap(), muted("Scroll"@)]
}

/// The hint for leaving the view.
pub open spec fn quit_item() -> Seq<LegendPartView> {
    seq![alert("q"@), gap(), muted("/"@), gap(), alert("Esc"@), gap(), muted("Quit"@)]
}

/// What the legend says: the title, then the four hints.
pub open spec fn legend_of(app_name: Seq<char>, layout: LegendLayout) -> Seq<Seq<LegendPartView>> {
    seq![
        title_item(app_name),
        line_scroll_item(),
        page_scroll_item(layout),
        mouse_item(),
        quit_item(),
    ]
}

/// The form of the legend on a screen: stacked on a wide one, a line on a
/// narrow one.
pub open spec fn layout_for(screen: Area) -> LegendLayout {
    if screen.width > NARROW_WIDTH {
        LegendLayout::Stacked
    } else {
        LegendLayout::Line
    }
}

/// Picks the form of the legend for a screen.
pub fn legend_layout(screen: &Area) -> (layout: LegendLayout)
    ensures
        layout == layout_for(*screen),
{
    if screen.width > NARROW_WIDTH {
        LegendLayout::Stacked
    } else {
        LegendLayout::Line
    }
}

fn part(text: &str, tone: LegendTone) -> (piece: LegendPart)
    ensures
        piece@ == (LegendPartView { text: text@, tone }),
{
    LegendPart { text: text.to_owned(), tone }
}

fn hint(first: &str, tight: bool, second: &str, what: &str, tone: LegendTone) -> (item: Vec<
    LegendPart,
>)
    ensures
        item_view(item@) == if tight {
            seq![
                (LegendPartView { text: first@, tone }),
                muted("/"@),
                (LegendPartView { text: second@, tone }),
                gap(),
                muted(what@),
            ]
        } else {
            seq![
                (LegendPartView { text: first@, tone }),
                gap(),
                muted("/"@),
                gap(),
                (LegendPartView { text: second@, tone }),
                gap(),
                muted(what@),
            ]
        },
{
    let mut item: Vec<LegendPart> = Vec::new();
    item.push(part(first, tone));
    if !tight {
        item.push(part(" ", LegendTone::Plain));
    }
    item.push(part("/", LegendTone::Muted));
    if !tight {
        item.push(part(" ", LegendTone::Plain));
    }
    item.push(part(second, tone));
    item.push(part(" ", LegendTone::Plain));
    item.push(part(what, LegendTone::Muted));
    if tight {
        assert(item_view(item@) =~= seq![
            (LegendPartView { text: first@, tone }),
            muted("/"@),
            (LegendPartView { text: second@, tone }),
            gap(),
            muted(what@),
        ]);
    } else {
        assert(item_view(item@) =~= seq![
            (LegendPartView { text: first@, tone }),
            gap(),
            muted("/"@),
            gap(),
            (LegendPartView { text: second@, tone }),
            gap(),
            muted(what@),
        ]);
    }
    item
}

/// Builds the legend of the view for an application.
pub fn legend_parts(app_name: &str, layout: LegendLayout) -> (items: Vec<Vec<LegendPart>>)
    ensures
        legend_view(items@) == legend_of(app_name@, layout),
{
    let mut title = app_name.to_owned();
    title.append(" Help");
    let mut first: Vec<LegendPart> = Vec::new();
    first.push(LegendPart { text: title, tone: LegendTone::Accent });
    assert(item_view(first@) =~= title_item(app_name@));
    let tight = match layout {
        LegendLayout::Stacked => true,
        LegendLayout::Line => false,
    };
    let mut mouse: Vec<LegendPart> = Vec::new();
    mouse.push(part("Mouse", LegendTone::Accent));
    mouse.push(part(" ", LegendTone::Plain));
    mouse.push(part("Scroll", LegendTone::Muted));
    assert(item_view(mouse@) =~= mouse_item());
    let mut items: Vec<Vec<LegendPart>> = Vec::new();
    items.push(first);
    items.push(hint("↑", false, "↓", "Scroll", LegendTone::Accent));
    items.push(hint("PgUp", tight, "Dn", "Page", LegendTone::Accent));
    items.push(mouse);
    items.push(hint("q", false, "Esc", "Quit", LegendTone::Alert));
    assert(legend_view(items@) =~= legend_of(app_name@, layout));
    items
}

/// Styles a text in a colour, bold.
///
/// Trusted: this formats what `crossterm::style::Stylize::with` and
/// `Stylize::bold` give. What is written depends on the environment (no
/// colour sequences under `NO_COLOR`) and on the console (nothing at all on
/// a Windows console without escape sequences), so nothing is claimed of
/// the result; [`paint_piece`] tests it.
#[verifier::external_body]
pub(crate) fn paint_bold(text: &str, color: termimad::crossterm::style::Color) -> String {
    format!("{}", termimad::crossterm::style::Stylize::bold(termimad::crossterm::style::Stylize::with(text, color)))
}

/// Styles a text in dark grey.
///
/// Trusted: this formats what `crossterm::style::Stylize::dark_grey`
/// gives. What is written depends on the environment and on the console,
/// as for [`paint_bold`], so nothing is claimed of the result.
#[verifier::external_body]
pub(crate) fn paint_dark_grey(text: &str) -> String {
    format!("{}", termimad::crossterm::style::Stylize::dark_grey(text))
}

/// Styles a text in red, bold.
///
/// Trusted: this formats what `crossterm::style::Stylize::red` and
/// `Stylize::bold` give. What is written depends on the environment and on
/// the console, as for [`paint_bold`], so nothing is claimed of the result.
#[verifier::external_body]
pub(crate) fn paint_red_bold(text: &str) -> String {
    format!("{}", termimad::crossterm::style::Stylize::bold(termimad::crossterm::style::Stylize::red(text)))
}

/// Every piece of the item is unstyled.
pub open spec fn plain_item(item: Seq<LegendPart>) -> bool {
    forall|i: int| 0 <= i < item.len() ==> item[i].tone == LegendTone::Plain
}

/// The texts of the pieces of an item, in order.
pub open spec fn piece_texts(item: Seq<LegendPart>) -> Seq<Seq<char>> {
    Seq::new(item.len(), |i: int| item[i].text@)
}

/// The texts of the pieces of an item, one after the other.
pub open spec fn item_text(item: Seq<LegendPart>) -> Seq<char> {
    concat_all(piece_texts(item))
}

/// `styled` shows the piece: it holds the piece's text unbroken, with
/// whatever styling before and after it, and is the text itself for an
/// unstyled piece.
pub open spec fn shows_piece(styled: Seq<char>, piece: LegendPartView) -> bool {
    &&& holds_text(styled, piece.text)
    &&& piece.tone == LegendTone::Plain ==> styled == piece.text
}

/// `painted` shows the item piece by piece.
pub open spec fn painted_as(item: Seq<LegendPart>, painted: Seq<Seq<char>>) -> bool {
    &&& painted.len() == item.len()
    &&& forall|i: int| 0 <= i < item.len() ==> shows_piece(#[trigger] painted[i], item[i]@)
}

/// `styled` shows the item: it is made of one stretch per piece, in order,
/// and each stretch shows its piece.
pub open spec fn shows_item(styled: Seq<char>, item: Seq<LegendPart>) -> bool {
    exists|painted: Seq<Seq<char>>| #[trigger]
        painted_as(item, painted) && styled == concat_all(painted)
}

/// Stretches that show the pieces of an item are together at least as long
/// as the item's text, and are that text where no piece is styled.
pub proof fn lemma_painted_holds_text(item: Seq<LegendPart>, painted: Seq<Seq<char>>)
    requires
        painted_as(item, painted),
    ensures
        concat_all(painted).len() >= item_text(item).len(),
        plain_item(item) ==> concat_all(painted) == item_text(item),
    decreases item.len(),
{
    if item.len() > 0 {
        let fewer = item.drop_last();
        let before = painted.drop_last();
        assert(painted_as(fewer, before)) by {
            assert forall|i: int| 0 <= i < fewer.len() implies shows_piece(
                #[trigger] before[i],
                fewer[i]@,
            ) by {
                assert(before[i] == painted[i]);
            }
        }
        lemma_painted_holds_text(fewer, before);
        assert(piece_texts(item).drop_last() =~= piece_texts(fewer));
        assert(shows_piece(painted[item.len() - 1], item[item.len() - 1]@));
        let k = choose|k: int| occurs_at(painted.last(), item.last().text@, k);
        assert(occurs_at(painted.last(), item.last().text@, k));
        if plain_item(item) {
            assert(plain_item(fewer));
        }
    } else {
        assert(painted =~= piece_texts(item));
    }
}

/// Painting keeps what the legend says: a line that shows an item is at
/// least as long as the item's text, and is that text where no piece of the
/// item is styled.
pub proof fn law_painting_keeps_the_text(styled: Seq<char>, item: Seq<LegendPart>)
    requires
        shows_item(styled, item),
    ensures
        styled.len() >= item_text(item).len(),
        plain_item(item) ==> styled == item_text(item),
{
    let painted = choose|painted: Seq<Seq<char>>| #[trigger]
        painted_as(item, painted) && styled == concat_all(painted);
    lemma_painted_holds_text(item, painted);
}

/// Styles one piece in its tone. What the terminal library writes round a
/// styled text depends on the environment and on the console; should it
/// hand back something that no longer holds the text, the text goes out
/// unstyled, so that the legend never loses a hint.
pub fn paint_piece(piece: &LegendPart, accent: termimad::crossterm::style::Color) -> (styled:
    String)
    ensures
        shows_piece(styled@, piece@),
{
    let painted = match piece.tone {
        LegendTone::Accent => paint_bold(piece.text.as_str(), accent),
        LegendTone::Muted => paint_dark_grey(piece.text.as_str()),
        LegendTone::Alert => paint_red_bold(piece.text.as_str()),
        LegendTone::Plain => piece.text.clone(),
    };
    proof {
        assert(piece.text@.subrange(0, piece.text@.len() as int) =~= piece.text@);
        assert(occurs_at(piece.text@, piece.text@, 0));
    }
    if contains_text(painted.as_str(), piece.text.as_str()) {
        painted
    } else {
        piece.text.clone()
    }
}

/// Styles one legend item: its pieces, each in its tone, one after the
/// other.
pub fn paint_item(item: &Vec<LegendPart>, accent: termimad::crossterm::style::Color) -> (styled:
    String)
    ensures
        shows_item(styled@, item@),
{
    let ghost mut painted: Seq<Seq<char>> = Seq::empty();
    let mut styled = String::new();
    let mut i: usize = 0;
    while i < item.len()
        invariant
            i <= item.len(),
            painted.len() == i,
            forall|j: int| 0 <= j < i ==> shows_piece(#[trigger] painted[j], item@[j]@),
            styled@ == concat_all(painted),
        decreases item.len() - i,
    {
        let piece = paint_piece(&item[i], accent);
        styled.append(piece.as_str());
        proof {
            let longer = painted.push(piece@);
            assert(longer.drop_last() =~= painted);
            assert forall|j: int| 0 <= j < i + 1 implies shows_piece(
                #[trigger] longer[j],
                item@[j]@,
            ) by {
                if j < i {
                    assert(longer[j] == painted[j]);
                }
            }
            painted = longer;
        }
        i = i + 1;
    }
    assert(painted_as(item@, painted));
    styled
}

/// Styles a legend, item by item, in order.
pub fn paint_legend(items: &Vec<Vec<LegendPart>>, accent: termimad::crossterm::style::Color) -> (styled:
    Vec<String>)
    ensures
        styled@.len() == items@.len(),
        forall|i: int| 0 <= i < items@.len() ==> shows_item(#[trigger] styled@[i]@, items@[i]@),
{
    let mut styled: Vec<String> = Vec::new();
    let mut i: usize = 0;
    while i < items.len()
        invariant
            i <= items.len(),
            styled@.len() == i,
            forall|j: int| 0 <= j < i ==> shows_item(#[trigger] styled@[j]@, items@[j]@),
        decreases items.len() - i,
    {
        styled.push(paint_item(&items[i], accent));
        i = i + 1;
    }
    styled
}

/// A text and the cell of the screen where it starts.
#[derive(Debug, Clone)]
pub struct PlacedText {
    pub column: u16,
    pub row: u16,
    pub text: String,
}

/// The mathematical content of a [`PlacedText`].
pub struct PlacedTextView {
    pub column: u16,
    pub row: u16,
    pub text: Seq<char>,
}

impl View for PlacedText {
    type V = PlacedTextView;

    open spec fn view(&self) -> PlacedTextView {
        PlacedTextView { column: self.column, row: self.row, text: self.text@ }
    }
}

/// The contents of a list of placed texts, in order.
pub open spec fn placed_views(list: Seq<PlacedText>) -> Seq<PlacedTextView> {
    Seq::new(list.len(), |i: int| list[i]@)
}

/// Where the styled items of a legend go on a screen. Stacked, item `i`
/// starts row `i` at the left edge. As a line, the items are justified over
/// the width of the screen and start its last row.
pub open spec fn placed_legend(items: Seq<Seq<char>>, screen: Area) -> Seq<PlacedTextView> {
    match layout_for(screen) {
        LegendLayout::Stacked => Seq::new(
            items.len(),
            |i: int| PlacedTextView { column: 0, row: i as u16, text: items[i] },
        ),
        LegendLayout::Line => seq![
            PlacedTextView {
                column: 0,
                row: (screen.height - 1) as u16,
                text: justified(items, visible_widths(items), screen.width),
            },
        ],
    }
}

/// Places the styled items of a legend on a screen.
pub fn place_legend(items: &[String], screen: &Area) -> (placed: Vec<PlacedText>)
    requires
        screen_has_room(screen.width, screen.height),
        items@.len() <= u16::MAX,
    ensures
        placed_views(placed@) == placed_legend(texts(items@), *screen),
{
    let mut placed: Vec<PlacedText> = Vec::new();
    match legend_layout(screen) {
        LegendLayout::Stacked => {
            let mut i: usize = 0;
            while i < items.len()
                invariant
                    i <= items.len() <= u16::MAX,
                    placed@.len() == i,
                    forall|j: int|
                        0 <= j < i ==> placed@[j]@ == (PlacedTextView {
                            column: 0,
                            row: j as u16,
                            text: items@[j]@,
                        }),
                decreases items.len() - i,
            {
                placed.push(PlacedText { column: 0, row: i as u16, text: items[i].clone() });
                i = i + 1;
            }
            assert(placed_views(placed@) =~= placed_legend(texts(items@), *screen));
        },
        LegendLayout::Line => {
            let text = join_justify_between(items, screen.width);
            placed.push(PlacedText { column: 0, row: screen.height - 1, text });
            assert(placed_views(placed@) =~= placed_legend(texts(items@), *screen));
        },
    }
    placed
}

} // verus!
