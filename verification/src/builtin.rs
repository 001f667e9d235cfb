use vstd::prelude::*;

verus! {

use crate::style::{style_is_16, style_of, Color, Modifier, Style, UnderlineStyle};
use crate::theme::{find_exact_spec, first_match_from, Theme, ThemeBuilder};

/// The built-in `base16_transparent` theme: six rainbow entries for
/// bracket-pair coloring, then the UI, syntax, markup, diff and diagnostic
/// scopes, appended in a fixed declaration order. The result carries
/// exactly the table spelled out by [`builtin_scopes`] and
/// [`builtin_highlights`]; it is immutable, and a process typically builds
/// it once and shares it between readers.
pub fn default_theme() -> (t: Theme)
    ensures
        t.wf(),
        t.spec_name() == "base16_transparent"@,
        t.spec_rainbow_length() == 6,
        t.spec_scopes() == builtin_scopes(),
        t.spec_highlights() == builtin_highlights(),
{
    let mut b = ThemeBuilder::new("base16_transparent".to_owned());
    proof {
        lemma_builtin_entries();
        assert(b.spec_scopes() =~= builtin_scopes().take(0));
        assert(b.spec_highlights() =~= builtin_highlights().take(0));
    }
    add_rainbow_styles(&mut b);
    b.end_rainbow();
    add_ui_styles(&mut b);
    add_syntax_styles(&mut b);
    add_markup_styles(&mut b);
    add_diff_styles(&mut b);
    add_diagnostic_styles(&mut b);
    let t = b.build();
    proof {
        assert(t.spec_scopes() =~= builtin_scopes());
        assert(t.spec_highlights() =~= builtin_highlights());
    }
    t
}

/// Append entry `m` of the built-in table to a builder holding exactly the
/// first `m` entries; the scope, the style and the freshness of the name
/// are the caller's to establish, the bookkeeping is proved here once.
fn add_pinned(b: &mut ThemeBuilder, scope: String, style: Style, Ghost(m): Ghost<int>)
    requires
        old(b).wf(),
        0 <= m < 82,
        old(b).spec_scopes() == builtin_scopes().take(m),
        old(b).spec_highlights() == builtin_highlights().take(m),
        scope@ == builtin_scopes()[m],
        style == builtin_highlights()[m],
        find_exact_spec(builtin_scopes().take(m), builtin_scopes()[m]) is None,
    ensures
        final(b).wf(),
        final(b).spec_name() == old(b).spec_name(),
        final(b).spec_rainbow_length() == old(b).spec_rainbow_length(),
        final(b).spec_scopes() == builtin_scopes().take(m + 1),
        final(b).spec_highlights() == builtin_highlights().take(m + 1),
{
    proof {
        lemma_builtin_entries();
    }
    let added = b.add_style(scope, style);
    proof {
        assert(added);
        assert(b.spec_scopes() =~= builtin_scopes().take(m + 1));
        assert(b.spec_highlights() =~= builtin_highlights().take(m + 1));
    }
}

/// The scope names of the built-in theme, in declaration order.
pub open spec fn builtin_scopes() -> Seq<Seq<char>> {
    seq![
        "rainbow.0"@,
        "rainbow.1"@,
        "rainbow.2"@,
        "rainbow.3"@,
        "rainbow.4"@,
        "rainbow.5"@,
        "ui.background"@,
        "ui.background.separator"@,
        "ui.text"@,
        "ui.text.focus"@,
        "ui.menu"@,
        "ui.menu.selected"@,
        "ui.menu.scroll"@,
        "ui.linenr"@,
        "ui.linenr.selected"@,
        "ui.popup"@,
        "ui.window"@,
        "ui.selection"@,
        "ui.statusline"@,
        "ui.statusline.inactive"@,
        "ui.statusline.normal"@,
        "ui.statusline.insert"@,
        "ui.statusline.select"@,
        "ui.help"@,
        "ui.cursor"@,
        "ui.cursor.match"@,
        "ui.cursor.primary"@,
        "ui.cursor.secondary"@,
        "ui.cursorline.primary"@,
        "ui.cursorline.secondary"@,
        "ui.cursorcolumn.primary"@,
        "ui.cursorcolumn.secondary"@,
        "ui.virtual.ruler"@,
        "ui.virtual.whitespace"@,
        "ui.virtual.indent-guide"@,
        "ui.virtual.inlay-hint"@,
        "ui.virtual.inlay-hint.parameter"@,
        "ui.virtual.inlay-hint.type"@,
        "ui.virtual.wrap"@,
        "ui.virtual.jump-label"@,
        "ui.gutter"@,
        "comment"@,
        "variable"@,
        "constant.numeric"@,
        "constant"@,
        "attribute"@,
        "type"@,
        "string"@,
        "variable.other.member"@,
        "constant.character.escape"@,
        "function"@,
        "constructor"@,
        "special"@,
        "keyword"@,
        "label"@,
        "namespace"@,
        "markup.heading"@,
        "markup.list"@,
        "markup.bold"@,
        "markup.italic"@,
        "markup.strikethrough"@,
        "markup.link.url"@,
        "markup.link.text"@,
        "markup.quote"@,
        "markup.raw"@,
        "markup.normal"@,
        "markup.insert"@,
        "markup.select"@,
        "diff.plus"@,
        "diff.delta"@,
        "diff.delta.moved"@,
        "diff.minus"@,
        "info"@,
        "hint"@,
        "debug"@,
        "warning"@,
        "error"@,
        "diagnostic.info"@,
        "diagnostic.hint"@,
        "diagnostic.debug"@,
        "diagnostic.warning"@,
        "diagnostic.error"@,
    ]
}

/// The styles of the built-in theme, parallel to `builtin_scopes`.
pub open spec fn builtin_highlights() -> Seq<Style> {
    seq![
        style_of(Some(Color::Red), None, None, None, 0x0000),
        style_of(Some(Color::Yellow), None, None, None, 0x0000),
        style_of(Some(Color::Green), None, None, None, 0x0000),
        style_of(Some(Color::Blue), None, None, None, 0x0000),
        style_of(Some(Color::Cyan), None, None, None, 0x0000),
        style_of(Some(Color::Magenta), None, None, None, 0x0000),
        style_of(Some(Color::White), None, None, None, 0x0000),
        style_of(Some(Color::Gray), None, None, None, 0x0000),
        style_of(Some(Color::LightGray), None, None, None, 0x0000),
        style_of(Some(Color::White), None, None, None, 0x0000),
        style_of(Some(Color::White), None, None, None, 0x0000),
        style_of(None, None, None, None, 0x0040),
        style_of(Some(Color::LightGray), None, None, None, 0x0000),
        style_of(None, None, None, None, 0x0002),
        style_of(Some(Color::White), None, None, None, 0x0001),
        style_of(Some(Color::White), None, None, None, 0x0000),
        style_of(Some(Color::Gray), None, None, None, 0x0000),
        style_of(None, Some(Color::Gray), None, None, 0x0000),
        style_of(Some(Color::White), None, None, None, 0x0000),
        style_of(Some(Color::Gray), None, None, None, 0x0000),
        style_of(Some(Color::Black), Some(Color::Blue), None, None, 0x0000),
        style_of(Some(Color::Black), Some(Color::Green), None, None, 0x0000),
        style_of(Some(Color::Black), Some(Color::Magenta), None, None, 0x0000),
        style_of(Some(Color::LightGray), None, None, None, 0x0000),
        style_of(None, None, None, None, 0x0040),
        style_of(Some(Color::LightYellow), None, Some(Color::LightYellow), Some(UnderlineStyle::Line), 0x0000),
        style_of(None, None, None, None, 0x0050),
        style_of(None, None, None, None, 0x0040),
        style_of(None, None, Some(Color::LightGray), Some(UnderlineStyle::Line), 0x0000),
        style_of(None, None, Some(Color::LightGray), Some(UnderlineStyle::Line), 0x0000),
        style_of(None, Some(Color::Gray), None, None, 0x0000),
        style_of(None, Some(Color::Gray), None, None, 0x0000),
        style_of(None, Some(Color::Gray), None, None, 0x0000),
        style_of(Some(Color::Gray), None, None, None, 0x0000),
        style_of(Some(Color::Gray), None, None, None, 0x0000),
        style_of(Some(Color::White), Some(Color::Gray), None, None, 0x0000),
        style_of(Some(Color::White), Some(Color::Gray), None, None, 0x0000),
        style_of(Some(Color::White), Some(Color::Gray), None, None, 0x0000),
        style_of(Some(Color::Gray), None, None, None, 0x0000),
        style_of(Some(Color::Blue), None, None, Some(UnderlineStyle::Line), 0x0001),
        style_of(Some(Color::Gray), None, None, None, 0x0000),
        style_of(Some(Color::Gray), None, None, None, 0x0000),
        style_of(Some(Color::LightRed), None, None, None, 0x0000),
        style_of(Some(Color::Yellow), None, None, None, 0x0000),
        style_of(Some(Color::Yellow), None, None, None, 0x0000),
        style_of(Some(Color::Yellow), None, None, None, 0x0000),
        style_of(Some(Color::LightYellow), None, None, None, 0x0000),
        style_of(Some(Color::LightGreen), None, None, None, 0x0000),
        style_of(Some(Color::Green), None, None, None, 0x0000),
        style_of(Some(Color::LightCyan), None, None, None, 0x0000),
        style_of(Some(Color::LightBlue), None, None, None, 0x0000),
        style_of(Some(Color::LightBlue), None, None, None, 0x0000),
        style_of(Some(Color::LightBlue), None, None, None, 0x0000),
        style_of(Some(Color::LightMagenta), None, None, None, 0x0000),
        style_of(Some(Color::LightMagenta), None, None, None, 0x0000),
        style_of(Some(Color::LightMagenta), None, None, None, 0x0000),
        style_of(Some(Color::LightBlue), None, None, None, 0x0000),
        style_of(Some(Color::LightRed), None, None, None, 0x0000),
        style_of(Some(Color::LightYellow), None, None, None, 0x0001),
        style_of(Some(Color::LightMagenta), None, None, None, 0x0004),
        style_of(None, None, None, None, 0x0100),
        style_of(Some(Color::Yellow), None, Some(Color::Yellow), Some(UnderlineStyle::Line), 0x0000),
        style_of(Some(Color::LightRed), None, None, None, 0x0000),
        style_of(Some(Color::LightCyan), None, None, None, 0x0000),
        style_of(Some(Color::Green), None, None, None, 0x0000),
        style_of(Some(Color::Blue), None, None, None, 0x0000),
        style_of(Some(Color::Green), None, None, None, 0x0000),
        style_of(Some(Color::Magenta), None, None, None, 0x0000),
        style_of(Some(Color::LightGreen), None, None, None, 0x0000),
        style_of(Some(Color::LightBlue), None, None, None, 0x0000),
        style_of(Some(Color::Blue), None, None, None, 0x0000),
        style_of(Some(Color::LightRed), None, None, None, 0x0000),
        style_of(Some(Color::LightBlue), None, None, None, 0x0000),
        style_of(Some(Color::LightGray), None, None, None, 0x0000),
        style_of(Some(Color::LightGray), None, None, None, 0x0000),
        style_of(Some(Color::LightYellow), None, None, None, 0x0000),
        style_of(Some(Color::LightRed), None, None, None, 0x0000),
        style_of(None, None, Some(Color::LightBlue), Some(UnderlineStyle::Dotted), 0x0000),
        style_of(None, None, Some(Color::LightGray), Some(UnderlineStyle::DoubleLine), 0x0000),
        style_of(None, None, Some(Color::LightGray), Some(UnderlineStyle::Dashed), 0x0000),
        style_of(None, None, Some(Color::LightYellow), Some(UnderlineStyle::Curl), 0x0000),
        style_of(None, None, Some(Color::LightRed), Some(UnderlineStyle::Curl), 0x0000),
    ]
}

/// Every entry of the built-in table, by index: what stands at each
/// position of the two parallel sequences.
pub proof fn lemma_builtin_entries()
    ensures
        builtin_scopes().len() == 82,
        builtin_highlights().len() == 82,
        builtin_scopes()[0] == "rainbow.0"@,
        builtin_highlights()[0] == style_of(Some(Color::Red), None, None, None, 0x0000),
        builtin_scopes()[1] == "rainbow.1"@,
        builtin_highlights()[1] == style_of(Some(Color::Yellow), None, None, None, 0x0000),
        builtin_scopes()[2] == "rainbow.2"@,
        builtin_highlights()[2] == style_of(Some(Color::Green), None, None, None, 0x0000),
        builtin_scopes()[3] == "rainbow.3"@,
        builtin_highlights()[3] == style_of(Some(Color::Blue), None, None, None, 0x0000),
        builtin_scopes()[4] == "rainbow.4"@,
        builtin_highlights()[4] == style_of(Some(Color::Cyan), None, None, None, 0x0000),
        builtin_scopes()[5] == "rainbow.5"@,
        builtin_highlights()[5] == style_of(Some(Color::Magenta), None, None, None, 0x0000),
        builtin_scopes()[6] == "ui.background"@,
        builtin_highlights()[6] == style_of(Some(Color::White), None, None, None, 0x0000),
        builtin_scopes()[7] == "ui.background.separator"@,
        builtin_highlights()[7] == style_of(Some(Color::Gray), None, None, None, 0x0000),
        builtin_scopes()[8] == "ui.text"@,
        builtin_highlights()[8] == style_of(Some(Color::LightGray), None, None, None, 0x0000),
        builtin_scopes()[9] == "ui.text.focus"@,
        builtin_highlights()[9] == style_of(Some(Color::White), None, None, None, 0x0000),
        builtin_scopes()[10] == "ui.menu"@,
        builtin_highlights()[10] == style_of(Some(Color::White), None, None, None, 0x0000),
        builtin_scopes()[11] == "ui.menu.selected"@,
        builtin_highlights()[11] == style_of(None, None, None, None, 0x0040),
        builtin_scopes()[12] == "ui.menu.scroll"@,
        builtin_highlights()[12] == style_of(Some(Color::LightGray), None, None, None, 0x0000),
        builtin_scopes()[13] == "ui.linenr"@,
        builtin_highlights()[13] == style_of(None, None, None, None, 0x0002),
        builtin_scopes()[14] == "ui.linenr.selected"@,
        builtin_highlights()[14] == style_of(Some(Color::White), None, None, None, 0x0001),
        builtin_scopes()[15] == "ui.popup"@,
        builtin_highlights()[15] == style_of(Some(Color::White), None, None, None, 0x0000),
        builtin_scopes()[16] == "ui.window"@,
        builtin_highlights()[16] == style_of(Some(Color::Gray), None, None, None, 0x0000),
        builtin_scopes()[17] == "ui.selection"@,
        builtin_highlights()[17] == style_of(None, Some(Color::Gray), None, None, 0x0000),
        builtin_scopes()[18] == "ui.statusline"@,
        builtin_highlights()[18] == style_of(Some(Color::White), None, None, None, 0x0000),
        builtin_scopes()[19] == "ui.statusline.inactive"@,
        builtin_highlights()[19] == style_of(Some(Color::Gray), None, None, None, 0x0000),
        builtin_scopes()[20] == "ui.statusline.normal"@,
        builtin_highlights()[20] == style_of(Some(Color::Black), Some(Color::Blue), None, None, 0x0000),
        builtin_scopes()[21] == "ui.statusline.insert"@,
        builtin_highlights()[21] == style_of(Some(Color::Black), Some(Color::Green), None, None, 0x0000),
        builtin_scopes()[22] == "ui.statusline.select"@,
        builtin_highlights()[22] == style_of(Some(Color::Black), Some(Color::Magenta), None, None, 0x0000),
        builtin_scopes()[23] == "ui.help"@,
        builtin_highlights()[23] == style_of(Some(Color::LightGray), None, None, None, 0x0000),
        builtin_scopes()[24] == "ui.cursor"@,
        builtin_highlights()[24] == style_of(None, None, None, None, 0x0040),
        builtin_scopes()[25] == "ui.cursor.match"@,
        builtin_highlights()[25] == style_of(Some(Color::LightYellow), None, Some(Color::LightYellow), Some(UnderlineStyle::Line), 0x0000),
        builtin_scopes()[26] == "ui.cursor.primary"@,
        builtin_highlights()[26] == style_of(None, None, None, None, 0x0050),
        builtin_scopes()[27] == "ui.cursor.secondary"@,
        builtin_highlights()[27] == style_of(None, None, None, None, 0x0040),
        builtin_scopes()[28] == "ui.cursorline.primary"@,
        builtin_highlights()[28] == style_of(None, None, Some(Color::LightGray), Some(UnderlineStyle::Line), 0x0000),
        builtin_scopes()[29] == "ui.cursorline.secondary"@,
        builtin_highlights()[29] == style_of(None, None, Some(Color::LightGray), Some(UnderlineStyle::Line), 0x0000),
        builtin_scopes()[30] == "ui.cursorcolumn.primary"@,
        builtin_highlights()[30] == style_of(None, Some(Color::Gray), None, None, 0x0000),
        builtin_scopes()[31] == "ui.cursorcolumn.secondary"@,
        builtin_highlights()[31] == style_of(None, Some(Color::Gray), None, None, 0x0000),
        builtin_scopes()[32] == "ui.virtual.ruler"@,
        builtin_highlights()[32] == style_of(None, Some(Color::Gray), None, None, 0x0000),
        builtin_scopes()[33] == "ui.virtual.whitespace"@,
        builtin_highlights()[33] == style_of(Some(Color::Gray), None, None, None, 0x0000),
        builtin_scopes()[34] == "ui.virtual.indent-guide"@,
        builtin_highlights()[34] == style_of(Some(Color::Gray), None, None, None, 0x0000),
        builtin_scopes()[35] == "ui.virtual.inlay-hint"@,
        builtin_highlights()[35] == style_of(Some(Color::White), Some(Color::Gray), None, None, 0x0000),
        builtin_scopes()[36] == "ui.virtual.inlay-hint.parameter"@,
        builtin_highlights()[36] == style_of(Some(Color::White), Some(Color::Gray), None, None, 0x0000),
        builtin_scopes()[37] == "ui.virtual.inlay-hint.type"@,
        builtin_highlights()[37] == style_of(Some(Color::White), Some(Color::Gray), None, None, 0x0000),
        builtin_scopes()[38] == "ui.virtual.wrap"@,
        builtin_highlights()[38] == style_of(Some(Color::Gray), None, None, None, 0x0000),
        builtin_scopes()[39] == "ui.virtual.jump-label"@,
        builtin_highlights()[39] == style_of(Some(Color::Blue), None, None, Some(UnderlineStyle::Line), 0x0001),
        builtin_scopes()[40] == "ui.gutter"@,
        builtin_highlights()[40] == style_of(Some(Color::Gray), None, None, None, 0x0000),
        builtin_scopes()[41] == "comment"@,
        builtin_highlights()[41] == style_of(Some(Color::Gray), None, None, None, 0x0000),
        builtin_scopes()[42] == "variable"@,
        builtin_highlights()[42] == style_of(Some(Color::LightRed), None, None, None, 0x0000),
        builtin_scopes()[43] == "constant.numeric"@,
        builtin_highlights()[43] == style_of(Some(Color::Yellow), None, None, None, 0x0000),
        builtin_scopes()[44] == "constant"@,
        builtin_highlights()[44] == style_of(Some(Color::Yellow), None, None, None, 0x0000),
        builtin_scopes()[45] == "attribute"@,
        builtin_highlights()[45] == style_of(Some(Color::Yellow), None, None, None, 0x0000),
        builtin_scopes()[46] == "type"@,
        builtin_highlights()[46] == style_of(Some(Color::LightYellow), None, None, None, 0x0000),
        builtin_scopes()[47] == "string"@,
        builtin_highlights()[47] == style_of(Some(Color::LightGreen), None, None, None, 0x0000),
        builtin_scopes()[48] == "variable.other.member"@,
        builtin_highlights()[48] == style_of(Some(Color::Green), None, None, None, 0x0000),
        builtin_scopes()[49] == "constant.character.escape"@,
        builtin_highlights()[49] == style_of(Some(Color::LightCyan), None, None, None, 0x0000),
        builtin_scopes()[50] == "function"@,
        builtin_highlights()[50] == style_of(Some(Color::LightBlue), None, None, None, 0x0000),
        builtin_scopes()[51] == "constructor"@,
        builtin_highlights()[51] == style_of(Some(Color::LightBlue), None, None, None, 0x0000),
        builtin_scopes()[52] == "special"@,
        builtin_highlights()[52] == style_of(Some(Color::LightBlue), None, None, None, 0x0000),
        builtin_scopes()[53] == "keyword"@,
        builtin_highlights()[53] == style_of(Some(Color::LightMagenta), None, None, None, 0x0000),
        builtin_scopes()[54] == "label"@,
        builtin_highlights()[54] == style_of(Some(Color::LightMagenta), None, None, None, 0x0000),
        builtin_scopes()[55] == "namespace"@,
        builtin_highlights()[55] == style_of(Some(Color::LightMagenta), None, None, None, 0x0000),
        builtin_scopes()[56] == "markup.heading"@,
        builtin_highlights()[56] == style_of(Some(Color::LightBlue), None, None, None, 0x0000),
        builtin_scopes()[57] == "markup.list"@,
        builtin_highlights()[57] == style_of(Some(Color::LightRed), None, None, None, 0x0000),
        builtin_scopes()[58] == "markup.bold"@,
        builtin_highlights()[58] == style_of(Some(Color::LightYellow), None, None, None, 0x0001),
        builtin_scopes()[59] == "markup.italic"@,
        builtin_highlights()[59] == style_of(Some(Color::LightMagenta), None, None, None, 0x0004),
        builtin_scopes()[60] == "markup.strikethrough"@,
        builtin_highlights()[60] == style_of(None, None, None, None, 0x0100),
        builtin_scopes()[61] == "markup.link.url"@,
        builtin_highlights()[61] == style_of(Some(Color::Yellow), None, Some(Color::Yellow), Some(UnderlineStyle::Line), 0x0000),
        builtin_scopes()[62] == "markup.link.text"@,
        builtin_highlights()[62] == style_of(Some(Color::LightRed), None, None, None, 0x0000),
        builtin_scopes()[63] == "markup.quote"@,
        builtin_highlights()[63] == style_of(Some(Color::LightCyan), None, None, None, 0x0000),
        builtin_scopes()[64] == "markup.raw"@,
        builtin_highlights()[64] == style_of(Some(Color::Green), None, None, None, 0x0000),
        builtin_scopes()[65] == "markup.normal"@,
        builtin_highlights()[65] == style_of(Some(Color::Blue), None, None, None, 0x0000),
        builtin_scopes()[66] == "markup.insert"@,
        builtin_highlights()[66] == style_of(Some(Color::Green), None, None, None, 0x0000),
        builtin_scopes()[67] == "markup.select"@,
        builtin_highlights()[67] == style_of(Some(Color::Magenta), None, None, None, 0x0000),
        builtin_scopes()[68] == "diff.plus"@,
        builtin_highlights()[68] == style_of(Some(Color::LightGreen), None, None, None, 0x0000),
        builtin_scopes()[69] == "diff.delta"@,
        builtin_highlights()[69] == style_of(Some(Color::LightBlue), None, None, None, 0x0000),
        builtin_scopes()[70] == "diff.delta.moved"@,
        builtin_highlights()[70] == style_of(Some(Color::Blue), None, None, None, 0x0000),
        builtin_scopes()[71] == "diff.minus"@,
        builtin_highlights()[71] == style_of(Some(Color::LightRed), None, None, None, 0x0000),
        builtin_scopes()[72] == "info"@,
        builtin_highlights()[72] == style_of(Some(Color::LightBlue), None, None, None, 0x0000),
        builtin_scopes()[73] == "hint"@,
        builtin_highlights()[73] == style_of(Some(Color::LightGray), None, None, None, 0x0000),
        builtin_scopes()[74] == "debug"@,
        builtin_highlights()[74] == style_of(Some(Color::LightGray), None, None, None, 0x0000),
        builtin_scopes()[75] == "warning"@,
        builtin_highlights()[75] == style_of(Some(Color::LightYellow), None, None, None, 0x0000),
        builtin_scopes()[76] == "error"@,
        builtin_highlights()[76] == style_of(Some(Color::LightRed), None, None, None, 0x0000),
        builtin_scopes()[77] == "diagnostic.info"@,
        builtin_highlights()[77] == style_of(None, None, Some(Color::LightBlue), Some(UnderlineStyle::Dotted), 0x0000),
        builtin_scopes()[78] == "diagnostic.hint"@,
        builtin_highlights()[78] == style_of(None, None, Some(Color::LightGray), Some(UnderlineStyle::DoubleLine), 0x0000),
        builtin_scopes()[79] == "diagnostic.debug"@,
        builtin_highlights()[79] == style_of(None, None, Some(Color::LightGray), Some(UnderlineStyle::Dashed), 0x0000),
        builtin_scopes()[80] == "diagnostic.warning"@,
        builtin_highlights()[80] == style_of(None, None, Some(Color::LightYellow), Some(UnderlineStyle::Curl), 0x0000),
        builtin_scopes()[81] == "diagnostic.error"@,
        builtin_highlights()[81] == style_of(None, None, Some(Color::LightRed), Some(UnderlineStyle::Curl), 0x0000),
{
}

/// The lengths of the built-in scope names, and enough of their
/// characters to tell any two equal-length names apart.
proof fn lemma_builtin_name_chars()
    ensures
        "rainbow.0"@.len() == 9,
        "rainbow.1"@.len() == 9,
        "rainbow.2"@.len() == 9,
        "rainbow.3"@.len() == 9,
        "rainbow.4"@.len() == 9,
        "rainbow.5"@.len() == 9,
        "ui.background"@.len() == 13,
        "ui.background.separator"@.len() == 23,
        "ui.text"@.len() == 7,
        "ui.text.focus"@.len() == 13,
        "ui.menu"@.len() == 7,
        "ui.menu.selected"@.len() == 16,
        "ui.menu.scroll"@.len() == 14,
        "ui.linenr"@.len() == 9,
        "ui.linenr.selected"@.len() == 18,
        "ui.popup"@.len() == 8,
        "ui.window"@.len() == 9,
        "ui.selection"@.len() == 12,
        "ui.statusline"@.len() == 13,
        "ui.statusline.inactive"@.len() == 22,
        "ui.statusline.normal"@.len() == 20,
        "ui.statusline.insert"@.len() == 20,
        "ui.statusline.select"@.len() == 20,
        "ui.help"@.len() == 7,
        "ui.cursor"@.len() == 9,
        "ui.cursor.match"@.len() == 15,
        "ui.cursor.primary"@.len() == 17,
        "ui.cursor.secondary"@.len() == 19,
        "ui.cursorline.primary"@.len() == 21,
        "ui.cursorline.secondary"@.len() == 23,
        "ui.cursorcolumn.primary"@.len() == 23,
        "ui.cursorcolumn.secondary"@.len() == 25,
        "ui.virtual.ruler"@.len() == 16,
        "ui.virtual.whitespace"@.len() == 21,
        "ui.virtual.indent-guide"@.len() == 23,
        "ui.virtual.inlay-hint"@.len() == 21,
        "ui.virtual.inlay-hint.parameter"@.len() == 31,
        "ui.virtual.inlay-hint.type"@.len() == 26,
        "ui.virtual.wrap"@.len() == 15,
        "ui.virtual.jump-label"@.len() == 21,
        "ui.gutter"@.len() == 9,
        "comment"@.len() == 7,
        "variable"@.len() == 8,
        "constant.numeric"@.len() == 16,
        "constant"@.len() == 8,
        "attribute"@.len() == 9,
        "type"@.len() == 4,
        "string"@.len() == 6,
        "variable.other.member"@.len() == 21,
        "constant.character.escape"@.len() == 25,
        "function"@.len() == 8,
        "constructor"@.len() == 11,
        "special"@.len() == 7,
        "keyword"@.len() == 7,
        "label"@.len() == 5,
        "namespace"@.len() == 9,
        "markup.heading"@.len() == 14,
        "markup.list"@.len() == 11,
        "markup.bold"@.len() == 11,
        "markup.italic"@.len() == 13,
        "markup.strikethrough"@.len() == 20,
        "markup.link.url"@.len() == 15,
        "markup.link.text"@.len() == 16,
        "markup.quote"@.len() == 12,
        "markup.raw"@.len() == 10,
        "markup.normal"@.len() == 13,
        "markup.insert"@.len() == 13,
        "markup.select"@.len() == 13,
        "diff.plus"@.len() == 9,
        "diff.delta"@.len() == 10,
        "diff.delta.moved"@.len() == 16,
        "diff.minus"@.len() == 10,
        "info"@.len() == 4,
        "hint"@.len() == 4,
        "debug"@.len() == 5,
        "warning"@.len() == 7,
        "error"@.len() == 5,
        "diagnostic.info"@.len() == 15,
        "diagnostic.hint"@.len() == 15,
        "diagnostic.debug"@.len() == 16,
        "diagnostic.warning"@.len() == 18,
        "diagnostic.error"@.len() == 16,
        "rainbow.0"@[0] == 'r',
        "rainbow.0"@[8] == '0',
        "rainbow.1"@[0] == 'r',
        "rainbow.1"@[8] == '1',
        "rainbow.2"@[0] == 'r',
        "rainbow.2"@[8] == '2',
        "rainbow.3"@[0] == 'r',
        "rainbow.3"@[8] == '3',
        "rainbow.4"@[0] == 'r',
        "rainbow.4"@[8] == '4',
        "rainbow.5"@[0] == 'r',
        "rainbow.5"@[8] == '5',
        "ui.background"@[0] == 'u',
        "ui.background"@[3] == 'b',
        "ui.background.separator"@[3] == 'b',
        "ui.text"@[0] == 'u',
        "ui.text"@[3] == 't',
        "ui.text.focus"@[0] == 'u',
        "ui.text.focus"@[3] == 't',
        "ui.menu"@[0] == 'u',
        "ui.menu"@[3] == 'm',
        "ui.menu.selected"@[0] == 'u',
        "ui.menu.selected"@[3] == 'm',
        "ui.menu.scroll"@[0] == 'u',
        "ui.linenr"@[0] == 'u',
        "ui.linenr"@[3] == 'l',
        "ui.linenr.selected"@[0] == 'u',
        "ui.popup"@[0] == 'u',
        "ui.window"@[0] == 'u',
        "ui.window"@[3] == 'w',
        "ui.selection"@[0] == 'u',
        "ui.statusline"@[0] == 'u',
        "ui.statusline"@[3] == 's',
        "ui.statusline.normal"@[0] == 'u',
        "ui.statusline.normal"@[14] == 'n',
        "ui.statusline.insert"@[0] == 'u',
        "ui.statusline.insert"@[14] == 'i',
        "ui.statusline.select"@[0] == 'u',
        "ui.statusline.select"@[14] == 's',
        "ui.help"@[0] == 'u',
        "ui.help"@[3] == 'h',
        "ui.cursor"@[0] == 'u',
        "ui.cursor"@[3] == 'c',
        "ui.cursor.match"@[0] == 'u',
        "ui.cursor.match"@[3] == 'c',
        "ui.cursorline.primary"@[0] == 'u',
        "ui.cursorline.primary"@[3] == 'c',
        "ui.cursorline.secondary"@[3] == 'c',
        "ui.cursorline.secondary"@[9] == 'l',
        "ui.cursorcolumn.primary"@[3] == 'c',
        "ui.cursorcolumn.primary"@[9] == 'c',
        "ui.cursorcolumn.secondary"@[0] == 'u',
        "ui.virtual.ruler"@[0] == 'u',
        "ui.virtual.ruler"@[3] == 'v',
        "ui.virtual.whitespace"@[0] == 'u',
        "ui.virtual.whitespace"@[3] == 'v',
        "ui.virtual.whitespace"@[11] == 'w',
        "ui.virtual.indent-guide"@[3] == 'v',
        "ui.virtual.inlay-hint"@[0] == 'u',
        "ui.virtual.inlay-hint"@[3] == 'v',
        "ui.virtual.inlay-hint"@[11] == 'i',
        "ui.virtual.wrap"@[0] == 'u',
        "ui.virtual.wrap"@[3] == 'v',
        "ui.virtual.jump-label"@[0] == 'u',
        "ui.virtual.jump-label"@[3] == 'v',
        "ui.virtual.jump-label"@[11] == 'j',
        "ui.gutter"@[0] == 'u',
        "ui.gutter"@[3] == 'g',
        "comment"@[0] == 'c',
        "variable"@[0] == 'v',
        "constant.numeric"@[0] == 'c',
        "constant"@[0] == 'c',
        "attribute"@[0] == 'a',
        "type"@[0] == 't',
        "variable.other.member"@[0] == 'v',
        "constant.character.escape"@[0] == 'c',
        "function"@[0] == 'f',
        "constructor"@[0] == 'c',
        "special"@[0] == 's',
        "keyword"@[0] == 'k',
        "label"@[0] == 'l',
        "namespace"@[0] == 'n',
        "markup.heading"@[0] == 'm',
        "markup.list"@[0] == 'm',
        "markup.list"@[7] == 'l',
        "markup.bold"@[0] == 'm',
        "markup.bold"@[7] == 'b',
        "markup.italic"@[0] == 'm',
        "markup.italic"@[7] == 'i',
        "markup.italic"@[8] == 't',
        "markup.strikethrough"@[0] == 'm',
        "markup.link.url"@[0] == 'm',
        "markup.link.text"@[0] == 'm',
        "markup.quote"@[0] == 'm',
        "markup.raw"@[0] == 'm',
        "markup.normal"@[0] == 'm',
        "markup.normal"@[7] == 'n',
        "markup.insert"@[0] == 'm',
        "markup.insert"@[7] == 'i',
        "markup.insert"@[8] == 'n',
        "markup.select"@[0] == 'm',
        "markup.select"@[7] == 's',
        "diff.plus"@[0] == 'd',
        "diff.delta"@[0] == 'd',
        "diff.delta"@[5] == 'd',
        "diff.delta.moved"@[0] == 'd',
        "diff.delta.moved"@[2] == 'f',
        "diff.minus"@[0] == 'd',
        "diff.minus"@[5] == 'm',
        "info"@[0] == 'i',
        "hint"@[0] == 'h',
        "debug"@[0] == 'd',
        "warning"@[0] == 'w',
        "error"@[0] == 'e',
        "diagnostic.info"@[0] == 'd',
        "diagnostic.info"@[11] == 'i',
        "diagnostic.hint"@[0] == 'd',
        "diagnostic.hint"@[11] == 'h',
        "diagnostic.debug"@[0] == 'd',
        "diagnostic.debug"@[2] == 'a',
        "diagnostic.debug"@[11] == 'd',
        "diagnostic.warning"@[0] == 'd',
        "diagnostic.error"@[0] == 'd',
        "diagnostic.error"@[2] == 'a',
        "diagnostic.error"@[11] == 'e',
{
    reveal_strlit("rainbow.0");
    reveal_strlit("rainbow.1");
    reveal_strlit("rainbow.2");
    reveal_strlit("rainbow.3");
    reveal_strlit("rainbow.4");
    reveal_strlit("rainbow.5");
    reveal_strlit("ui.background");
    reveal_strlit("ui.background.separator");
    reveal_strlit("ui.text");
    reveal_strlit("ui.text.focus");
    reveal_strlit("ui.menu");
    reveal_strlit("ui.menu.selected");
    reveal_strlit("ui.menu.scroll");
    reveal_strlit("ui.linenr");
    reveal_strlit("ui.linenr.selected");
    reveal_strlit("ui.popup");
    reveal_strlit("ui.window");
    reveal_strlit("ui.selection");
    reveal_strlit("ui.statusline");
    reveal_strlit("ui.statusline.inactive");
    reveal_strlit("ui.statusline.normal");
    reveal_strlit("ui.statusline.insert");
    reveal_strlit("ui.statusline.select");
    reveal_strlit("ui.help");
    reveal_strlit("ui.cursor");
    reveal_strlit("ui.cursor.match");
    reveal_strlit("ui.cursor.primary");
    reveal_strlit("ui.cursor.secondary");
    reveal_strlit("ui.cursorline.primary");
    reveal_strlit("ui.cursorline.secondary");
    reveal_strlit("ui.cursorcolumn.primary");
    reveal_strlit("ui.cursorcolumn.secondary");
    reveal_strlit("ui.virtual.ruler");
    reveal_strlit("ui.virtual.whitespace");
    reveal_strlit("ui.virtual.indent-guide");
    reveal_strlit("ui.virtual.inlay-hint");
    reveal_strlit("ui.virtual.inlay-hint.parameter");
    reveal_strlit("ui.virtual.inlay-hint.type");
    reveal_strlit("ui.virtual.wrap");
    reveal_strlit("ui.virtual.jump-label");
    reveal_strlit("ui.gutter");
    reveal_strlit("comment");
    reveal_strlit("variable");
    reveal_strlit("constant.numeric");
    reveal_strlit("constant");
    reveal_strlit("attribute");
    reveal_strlit("type");
    reveal_strlit("string");
    reveal_strlit("variable.other.member");
    reveal_strlit("constant.character.escape");
    reveal_strlit("function");
    reveal_strlit("constructor");
    reveal_strlit("special");
    reveal_strlit("keyword");
    reveal_strlit("label");
    reveal_strlit("namespace");
    reveal_strlit("markup.heading");
    reveal_strlit("markup.list");
    reveal_strlit("markup.bold");
    reveal_strlit("markup.italic");
    reveal_strlit("markup.strikethrough");
    reveal_strlit("markup.link.url");
    reveal_strlit("markup.link.text");
    reveal_strlit("markup.quote");
    reveal_strlit("markup.raw");
    reveal_strlit("markup.normal");
    reveal_strlit("markup.insert");
    reveal_strlit("markup.select");
    reveal_strlit("diff.plus");
    reveal_strlit("diff.delta");
    reveal_strlit("diff.delta.moved");
    reveal_strlit("diff.minus");
    reveal_strlit("info");
    reveal_strlit("hint");
    reveal_strlit("debug");
    reveal_strlit("warning");
    reveal_strlit("error");
    reveal_strlit("diagnostic.info");
    reveal_strlit("diagnostic.hint");
    reveal_strlit("diagnostic.debug");
    reveal_strlit("diagnostic.warning");
    reveal_strlit("diagnostic.error");
}

/// Append the rainbow entries: positions 0 to 5 of the table.
#[verifier::rlimit(100)]
fn add_rainbow_styles(b: &mut ThemeBuilder)
    requires
        old(b).wf(),
        old(b).spec_scopes() == builtin_scopes().take(0),
        old(b).spec_highlights() == builtin_highlights().take(0),
    ensures
        final(b).wf(),
        final(b).spec_name() == old(b).spec_name(),
        final(b).spec_rainbow_length() == old(b).spec_rainbow_length(),
        final(b).spec_scopes() == builtin_scopes().take(6),
        final(b).spec_highlights() == builtin_highlights().take(6),
{
    proof {
        lemma_builtin_entries();
        lemma_builtin_name_chars();
        lemma_modifier_bit_unions();
    }
    proof {
        assert(find_exact_spec(builtin_scopes().take(0), "rainbow.0"@) is None) by {
            reveal_with_fuel(first_match_from, 84);
        };
    }
    add_pinned(b, "rainbow.0".to_owned(), Style::new().fg(Color::Red), Ghost(0));
    proof {
        assert(find_exact_spec(builtin_scopes().take(1), "rainbow.1"@) is None) by {
            reveal_with_fuel(first_match_from, 84);
        };
    }
    add_pinned(b, "rainbow.1".to_owned(), Style::new().fg(Color::Yellow), Ghost(1));
    proof {
        assert(find_exact_spec(builtin_scopes().take(2), "rainbow.2"@) is None) by {
            reveal_with_fuel(first_match_from, 84);
        };
    }
    add_pinned(b, "rainbow.2".to_owned(), Style::new().fg(Color::Green), Ghost(2));
    proof {
        assert(find_exact_spec(builtin_scopes().take(3), "rainbow.3"@) is None) by {
            reveal_with_fuel(first_match_from, 84);
        };
    }
    add_pinned(b, "rainbow.3".to_owned(), Style::new().fg(Color::Blue), Ghost(3));
    proof {
        assert(find_exact_spec(builtin_scopes().take(4), "rainbow.4"@) is None) by {
            reveal_with_fuel(first_match_from, 84);
        };
    }
    add_pinned(b, "rainbow.4".to_owned(), Style::new().fg(Color::Cyan), Ghost(4));
    proof {
        assert(find_exact_spec(builtin_scopes().take(5), "rainbow.5"@) is None) by {
            reveal_with_fuel(first_match_from, 84);
        };
    }
    add_pinned(b, "rainbow.5".to_owned(), Style::new().fg(Color::Magenta), Ghost(5));
}

/// Append the ui entries: positions 6 to 40 of the table.
#[verifier::rlimit(100)]
fn add_ui_styles(b: &mut ThemeBuilder)
    requires
        old(b).wf(),
        old(b).spec_scopes() == builtin_scopes().take(6),
        old(b).spec_highlights() == builtin_highlights().take(6),
    ensures
        final(b).wf(),
        final(b).spec_name() == old(b).spec_name(),
        final(b).spec_rainbow_length() == old(b).spec_rainbow_length(),
        final(b).spec_scopes() == builtin_scopes().take(41),
        final(b).spec_highlights() == builtin_highlights().take(41),
{
    proof {
        lemma_builtin_entries();
        lemma_builtin_name_chars();
        lemma_modifier_bit_unions();
    }
    proof {
        assert(find_exact_spec(builtin_scopes().take(6), "ui.background"@) is None) by {
            reveal_with_fuel(first_match_from, 84);
        };
    }
    add_pinned(b, "ui.background".to_owned(), Style::new().fg(Color::White), Ghost(6));
    proof {
        assert(find_exact_spec(builtin_scopes().take(7), "ui.background.separator"@) is None) by {
            reveal_with_fuel(first_match_from, 84);
        };
    }
    add_pinned(b, "ui.background.separator".to_owned(), Style::new().fg(Color::Gray), Ghost(7));
    proof {
        assert(find_exact_spec(builtin_scopes().take(8), "ui.text"@) is None) by {
            reveal_with_fuel(first_match_from, 84);
        };
    }
    add_pinned(b, "ui.text".to_owned(), Style::new().fg(Color::LightGray), Ghost(8));
    proof {
        assert(find_exact_spec(builtin_scopes().take(9), "ui.text.focus"@) is None) by {
            reveal_with_fuel(first_match_from, 84);
        };
    }
    add_pinned(b, "ui.text.focus".to_owned(), Style::new().fg(Color::White), Ghost(9));
    proof {
        assert(find_exact_spec(builtin_scopes().take(10), "ui.menu"@) is None) by {
            reveal_with_fuel(first_match_from, 84);
        };
    }
    add_pinned(b, "ui.menu".to_owned(), Style::new().fg(Color::White), Ghost(10));
    proof {
        assert(find_exact_spec(builtin_scopes().take(11), "ui.menu.selected"@) is None) by {
            reveal_with_fuel(first_match_from, 84);
        };
    }
    add_pinned(b, "ui.menu.selected".to_owned(), Style::new().add_modifier(Modifier::reversed()), Ghost(11));
    proof {
        assert(find_exact_spec(builtin_scopes().take(12), "ui.menu.scroll"@) is None) by {
            reveal_with_fuel(first_match_from, 84);
        };
    }
    add_pinned(b, "ui.menu.scroll".to_owned(), Style::new().fg(Color::LightGray), Ghost(12));
    proof {
        assert(find_exact_spec(builtin_scopes().take(13), "ui.linenr"@) is None) by {
            reveal_with_fuel(first_match_from, 84);
        };
    }
    add_pinned(b, "ui.linenr".to_owned(), Style::new().add_modifier(Modifier::dim()), Ghost(13));
    proof {
        assert(find_exact_spec(builtin_scopes().take(14), "ui.linenr.selected"@) is None) by {
            reveal_with_fuel(first_match_from, 84);
        };
    }
    add_pinned(b, "ui.linenr.selected".to_owned(), Style::new().fg(Color::White).add_modifier(Modifier::bold()), Ghost(14));
    proof {
        assert(find_exact_spec(builtin_scopes().take(15), "ui.popup"@) is None) by {
            reveal_with_fuel(first_match_from, 84);
        };
    }
    add_pinned(b, "ui.popup".to_owned(), Style::new().fg(Color::White), Ghost(15));
    proof {
        assert(find_exact_spec(builtin_scopes().take(16), "ui.window"@) is None) by {
            reveal_with_fuel(first_match_from, 84);
        };
    }
    add_pinned(b, "ui.window".to_owned(), Style::new().fg(Color::Gray), Ghost(16));
    proof {
        assert(find_exact_spec(builtin_scopes().take(17), "ui.selection"@) is None) by {
            reveal_with_fuel(first_match_from, 84);
        };
    }
    add_pinned(b, "ui.selection".to_owned(), Style::new().bg(Color::Gray), Ghost(17));
    proof {
        assert(find_exact_spec(builtin_scopes().take(18), "ui.statusline"@) is None) by {
            reveal_with_fuel(first_match_from, 84);
        };
    }
    add_pinned(b, "ui.statusline".to_owned(), Style::new().fg(Color::White), Ghost(18));
    proof {
        assert(find_exact_spec(builtin_scopes().take(19), "ui.statusline.inactive"@) is None) by {
            reveal_with_fuel(first_match_from, 84);
        };
    }
    add_pinned(b, "ui.statusline.inactive".to_owned(), Style::new().fg(Color::Gray), Ghost(19));
    proof {
        assert(find_exact_spec(builtin_scopes().take(20), "ui.statusline.normal"@) is None) by {
            reveal_with_fuel(first_match_from, 84);
        };
    }
    add_pinned(b, "ui.statusline.normal".to_owned(), Style::new().fg(Color::Black).bg(Color::Blue), Ghost(20));
    proof {
        assert(find_exact_spec(builtin_scopes().take(21), "ui.statusline.insert"@) is None) by {
            reveal_with_fuel(first_match_from, 84);
        };
    }
    add_pinned(b, "ui.statusline.insert".to_owned(), Style::new().fg(Color::Black).bg(Color::Green), Ghost(21));
    proof {
        assert(find_exact_spec(builtin_scopes().take(22), "ui.statusline.select"@) is None) by {
            reveal_with_fuel(first_match_from, 84);
        };
    }
    add_pinned(b, "ui.statusline.select".to_owned(), Style::new().fg(Color::Black).bg(Color::Magenta), Ghost(22));
    proof {
        assert(find_exact_spec(builtin_scopes().take(23), "ui.help"@) is None) by {
            reveal_with_fuel(first_match_from, 84);
        };
    }
    add_pinned(b, "ui.help".to_owned(), Style::new().fg(Color::LightGray), Ghost(23));
    proof {
        assert(find_exact_spec(builtin_scopes().take(24), "ui.cursor"@) is None) by {
            reveal_with_fuel(first_match_from, 84);
        };
    }
    add_pinned(b, "ui.cursor".to_owned(), Style::new().add_modifier(Modifier::reversed()), Ghost(24));
    proof {
        assert(find_exact_spec(builtin_scopes().take(25), "ui.cursor.match"@) is None) by {
            reveal_with_fuel(first_match_from, 84);
        };
    }
    add_pinned(b, "ui.cursor.match".to_owned(), Style::new().fg(Color::LightYellow).underline_color(Color::LightYellow).underline_style(UnderlineStyle::Line), Ghost(25));
    proof {
        assert(find_exact_spec(builtin_scopes().take(26), "ui.cursor.primary"@) is None) by {
            reveal_with_fuel(first_match_from, 84);
        };
    }
    add_pinned(b, "ui.cursor.primary".to_owned(), Style::new().add_modifier(Modifier::reversed().with(Modifier::slow_blink())), Ghost(26));
    proof {
        assert(find_exact_spec(builtin_scopes().take(27), "ui.cursor.secondary"@) is None) by {
            reveal_with_fuel(first_match_from, 84);
        };
    }
    add_pinned(b, "ui.cursor.secondary".to_owned(), Style::new().add_modifier(Modifier::reversed()), Ghost(27));
    proof {
        assert(find_exact_spec(builtin_scopes().take(28), "ui.cursorline.primary"@) is None) by {
            reveal_with_fuel(first_match_from, 84);
        };
    }
    add_pinned(b, "ui.cursorline.primary".to_owned(), Style::new().underline_color(Color::LightGray).underline_style(UnderlineStyle::Line), Ghost(28));
    proof {
        assert(find_exact_spec(builtin_scopes().take(29), "ui.cursorline.secondary"@) is None) by {
            reveal_with_fuel(first_match_from, 84);
        };
    }
    add_pinned(b, "ui.cursorline.secondary".to_owned(), Style::new().underline_color(Color::LightGray).underline_style(UnderlineStyle::Line), Ghost(29));
    proof {
        assert(find_exact_spec(builtin_scopes().take(30), "ui.cursorcolumn.primary"@) is None) by {
            reveal_with_fuel(first_match_from, 84);
        };
    }
    add_pinned(b, "ui.cursorcolumn.primary".to_owned(), Style::new().bg(Color::Gray), Ghost(30));
    proof {
        assert(find_exact_spec(builtin_scopes().take(31), "ui.cursorcolumn.secondary"@) is None) by {
            reveal_with_fuel(first_match_from, 84);
        };
    }
    add_pinned(b, "ui.cursorcolumn.secondary".to_owned(), Style::new().bg(Color::Gray), Ghost(31));
    proof {
        assert(find_exact_spec(builtin_scopes().take(32), "ui.virtual.ruler"@) is None) by {
            reveal_with_fuel(first_match_from, 84);
        };
    }
    add_pinned(b, "ui.virtual.ruler".to_owned(), Style::new().bg(Color::Gray), Ghost(32));
    proof {
        assert(find_exact_spec(builtin_scopes().take(33), "ui.virtual.whitespace"@) is None) by {
            reveal_with_fuel(first_match_from, 84);
        };
    }
    add_pinned(b, "ui.virtual.whitespace".to_owned(), Style::new().fg(Color::Gray), Ghost(33));
    proof {
        assert(find_exact_spec(builtin_scopes().take(34), "ui.virtual.indent-guide"@) is None) by {
            reveal_with_fuel(first_match_from, 84);
        };
    }
    add_pinned(b, "ui.virtual.indent-guide".to_owned(), Style::new().fg(Color::Gray), Ghost(34));
    proof {
        assert(find_exact_spec(builtin_scopes().take(35), "ui.virtual.inlay-hint"@) is None) by {
            reveal_with_fuel(first_match_from, 84);
        };
    }
    add_pinned(b, "ui.virtual.inlay-hint".to_owned(), Style::new().fg(Color::White).bg(Color::Gray), Ghost(35));
    proof {
        assert(find_exact_spec(builtin_scopes().take(36), "ui.virtual.inlay-hint.parameter"@) is None) by {
            reveal_with_fuel(first_match_from, 84);
        };
    }
    add_pinned(b, "ui.virtual.inlay-hint.parameter".to_owned(), Style::new().fg(Color::White).bg(Color::Gray), Ghost(36));
    proof {
        assert(find_exact_spec(builtin_scopes().take(37), "ui.virtual.inlay-hint.type"@) is None) by {
            reveal_with_fuel(first_match_from, 84);
        };
    }
    add_pinned(b, "ui.virtual.inlay-hint.type".to_owned(), Style::new().fg(Color::White).bg(Color::Gray), Ghost(37));
    proof {
        assert(find_exact_spec(builtin_scopes().take(38), "ui.virtual.wrap"@) is None) by {
            reveal_with_fuel(first_match_from, 84);
        };
    }
    add_pinned(b, "ui.virtual.wrap".to_owned(), Style::new().fg(Color::Gray), Ghost(38));
    proof {
        assert(find_exact_spec(builtin_scopes().take(39), "ui.virtual.jump-label"@) is None) by {
            reveal_with_fuel(first_match_from, 84);
        };
    }
    add_pinned(b, "ui.virtual.jump-label".to_owned(), Style::new().fg(Color::Blue).underline_style(UnderlineStyle::Line).add_modifier(Modifier::bold()), Ghost(39));
    proof {
        assert(find_exact_spec(builtin_scopes().take(40), "ui.gutter"@) is None) by {
            reveal_with_fuel(first_match_from, 84);
        };
    }
    add_pinned(b, "ui.gutter".to_owned(), Style::new().fg(Color::Gray), Ghost(40));
}

/// Append the syntax entries: positions 41 to 55 of the table.
#[verifier::rlimit(100)]
fn add_syntax_styles(b: &mut ThemeBuilder)
    requires
        old(b).wf(),
        old(b).spec_scopes() == builtin_scopes().take(41),
        old(b).spec_highlights() == builtin_highlights().take(41),
    ensures
        final(b).wf(),
        final(b).spec_name() == old(b).spec_name(),
        final(b).spec_rainbow_length() == old(b).spec_rainbow_length(),
        final(b).spec_scopes() == builtin_scopes().take(56),
        final(b).spec_highlights() == builtin_highlights().take(56),
{
    proof {
        lemma_builtin_entries();
        lemma_builtin_name_chars();
        lemma_modifier_bit_unions();
    }
    proof {
        assert(find_exact_spec(builtin_scopes().take(41), "comment"@) is None) by {
            reveal_with_fuel(first_match_from, 84);
        };
    }
    add_pinned(b, "comment".to_owned(), Style::new().fg(Color::Gray), Ghost(41));
    proof {
        assert(find_exact_spec(builtin_scopes().take(42), "variable"@) is None) by {
            reveal_with_fuel(first_match_from, 84);
        };
    }
    add_pinned(b, "variable".to_owned(), Style::new().fg(Color::LightRed), Ghost(42));
    proof {
        assert(find_exact_spec(builtin_scopes().take(43), "constant.numeric"@) is None) by {
            reveal_with_fuel(first_match_from, 84);
        };
    }
    add_pinned(b, "constant.numeric".to_owned(), Style::new().fg(Color::Yellow), Ghost(43));
    proof {
        assert(find_exact_spec(builtin_scopes().take(44), "constant"@) is None) by {
            reveal_with_fuel(first_match_from, 84);
        };
    }
    add_pinned(b, "constant".to_owned(), Style::new().fg(Color::Yellow), Ghost(44));
    proof {
        assert(find_exact_spec(builtin_scopes().take(45), "attribute"@) is None) by {
            reveal_with_fuel(first_match_from, 84);
        };
    }
    add_pinned(b, "attribute".to_owned(), Style::new().fg(Color::Yellow), Ghost(45));
    proof {
        assert(find_exact_spec(builtin_scopes().take(46), "type"@) is None) by {
            reveal_with_fuel(first_match_from, 84);
        };
    }
    add_pinned(b, "type".to_owned(), Style::new().fg(Color::LightYellow), Ghost(46));
    proof {
        assert(find_exact_spec(builtin_scopes().take(47), "string"@) is None) by {
            reveal_with_fuel(first_match_from, 84);
        };
    }
    add_pinned(b, "string".to_owned(), Style::new().fg(Color::LightGreen), Ghost(47));
    proof {
        assert(find_exact_spec(builtin_scopes().take(48), "variable.other.member"@) is None) by {
            reveal_with_fuel(first_match_from, 84);
        };
    }
    add_pinned(b, "variable.other.member".to_owned(), Style::new().fg(Color::Green), Ghost(48));
    proof {
        assert(find_exact_spec(builtin_scopes().take(49), "constant.character.escape"@) is None) by {
            reveal_with_fuel(first_match_from, 84);
        };
    }
    add_pinned(b, "constant.character.escape".to_owned(), Style::new().fg(Color::LightCyan), Ghost(49));
    proof {
        assert(find_exact_spec(builtin_scopes().take(50), "function"@) is None) by {
            reveal_with_fuel(first_match_from, 84);
        };
    }
    add_pinned(b, "function".to_owned(), Style::new().fg(Color::LightBlue), Ghost(50));
    proof {
        assert(find_exact_spec(builtin_scopes().take(51), "constructor"@) is None) by {
            reveal_with_fuel(first_match_from, 84);
        };
    }
    add_pinned(b, "constructor".to_owned(), Style::new().fg(Color::LightBlue), Ghost(51));
    proof {
        assert(find_exact_spec(builtin_scopes().take(52), "special"@) is None) by {
            reveal_with_fuel(first_match_from, 84);
        };
    }
    add_pinned(b, "special".to_owned(), Style::new().fg(Color::LightBlue), Ghost(52));
    proof {
        assert(find_exact_spec(builtin_scopes().take(53), "keyword"@) is None) by {
            reveal_with_fuel(first_match_from, 84);
        };
    }
    add_pinned(b, "keyword".to_owned(), Style::new().fg(Color::LightMagenta), Ghost(53));
    proof {
        assert(find_exact_spec(builtin_scopes().take(54), "label"@) is None) by {
            reveal_with_fuel(first_match_from, 84);
        };
    }
    add_pinned(b, "label".to_owned(), Style::new().fg(Color::LightMagenta), Ghost(54));
    proof {
        assert(find_exact_spec(builtin_scopes().take(55), "namespace"@) is None) by {
            reveal_with_fuel(first_match_from, 84);
        };
    }
    add_pinned(b, "namespace".to_owned(), Style::new().fg(Color::LightMagenta), Ghost(55));
}

/// Append the markup entries: positions 56 to 67 of the table.
#[verifier::rlimit(100)]
fn add_markup_styles(b: &mut ThemeBuilder)
    requires
        old(b).wf(),
        old(b).spec_scopes() == builtin_scopes().take(56),
        old(b).spec_highlights() == builtin_highlights().take(56),
    ensures
        final(b).wf(),
        final(b).spec_name() == old(b).spec_name(),
        final(b).spec_rainbow_length() == old(b).spec_rainbow_length(),
        final(b).spec_scopes() == builtin_scopes().take(68),
        final(b).spec_highlights() == builtin_highlights().take(68),
{
    proof {
        lemma_builtin_entries();
        lemma_builtin_name_chars();
        lemma_modifier_bit_unions();
    }
    proof {
        assert(find_exact_spec(builtin_scopes().take(56), "markup.heading"@) is None) by {
            reveal_with_fuel(first_match_from, 84);
        };
    }
    add_pinned(b, "markup.heading".to_owned(), Style::new().fg(Color::LightBlue), Ghost(56));
    proof {
        assert(find_exact_spec(builtin_scopes().take(57), "markup.list"@) is None) by {
            reveal_with_fuel(first_match_from, 84);
        };
    }
    add_pinned(b, "markup.list".to_owned(), Style::new().fg(Color::LightRed), Ghost(57));
    proof {
        assert(find_exact_spec(builtin_scopes().take(58), "markup.bold"@) is None) by {
            reveal_with_fuel(first_match_from, 84);
        };
    }
    add_pinned(b, "markup.bold".to_owned(), Style::new().fg(Color::LightYellow).add_modifier(Modifier::bold()), Ghost(58));
    proof {
        assert(find_exact_spec(builtin_scopes().take(59), "markup.italic"@) is None) by {
            reveal_with_fuel(first_match_from, 84);
        };
    }
    add_pinned(b, "markup.italic".to_owned(), Style::new().fg(Color::LightMagenta).add_modifier(Modifier::italic()), Ghost(59));
    proof {
        assert(find_exact_spec(builtin_scopes().take(60), "markup.strikethrough"@) is None) by {
            reveal_with_fuel(first_match_from, 84);
        };
    }
    add_pinned(b, "markup.strikethrough".to_owned(), Style::new().add_modifier(Modifier::crossed_out()), Ghost(60));
    proof {
        assert(find_exact_spec(builtin_scopes().take(61), "markup.link.url"@) is None) by {
            reveal_with_fuel(first_match_from, 84);
        };
    }
    add_pinned(b, "markup.link.url".to_owned(), Style::new().fg(Color::Yellow).underline_color(Color::Yellow).underline_style(UnderlineStyle::Line), Ghost(61));
    proof {
        assert(find_exact_spec(builtin_scopes().take(62), "markup.link.text"@) is None) by {
            reveal_with_fuel(first_match_from, 84);
        };
    }
    add_pinned(b, "markup.link.text".to_owned(), Style::new().fg(Color::LightRed), Ghost(62));
    proof {
        assert(find_exact_spec(builtin_scopes().take(63), "markup.quote"@) is None) by {
            reveal_with_fuel(first_match_from, 84);
        };
    }
    add_pinned(b, "markup.quote".to_owned(), Style::new().fg(Color::LightCyan), Ghost(63));
    proof {
        assert(find_exact_spec(builtin_scopes().take(64), "markup.raw"@) is None) by {
            reveal_with_fuel(first_match_from, 84);
        };
    }
    add_pinned(b, "markup.raw".to_owned(), Style::new().fg(Color::Green), Ghost(64));
    proof {
        assert(find_exact_spec(builtin_scopes().take(65), "markup.normal"@) is None) by {
            reveal_with_fuel(first_match_from, 84);
        };
    }
    add_pinned(b, "markup.normal".to_owned(), Style::new().fg(Color::Blue), Ghost(65));
    proof {
        assert(find_exact_spec(builtin_scopes().take(66), "markup.insert"@) is None) by {
            reveal_with_fuel(first_match_from, 84);
        };
    }
    add_pinned(b, "markup.insert".to_owned(), Style::new().fg(Color::Green), Ghost(66));
    proof {
        assert(find_exact_spec(builtin_scopes().take(67), "markup.select"@) is None) by {
            reveal_with_fuel(first_match_from, 84);
        };
    }
    add_pinned(b, "markup.select".to_owned(), Style::new().fg(Color::Magenta), Ghost(67));
}

/// Append the diff entries: positions 68 to 71 of the table.
#[verifier::rlimit(100)]
fn add_diff_styles(b: &mut ThemeBuilder)
    requires
        old(b).wf(),
        old(b).spec_scopes() == builtin_scopes().take(68),
        old(b).spec_highlights() == builtin_highlights().take(68),
    ensures
        final(b).wf(),
        final(b).spec_name() == old(b).spec_name(),
        final(b).spec_rainbow_length() == old(b).spec_rainbow_length(),
        final(b).spec_scopes() == builtin_scopes().take(72),
        final(b).spec_highlights() == builtin_highlights().take(72),
{
    proof {
        lemma_builtin_entries();
        lemma_builtin_name_chars();
        lemma_modifier_bit_unions();
    }
    proof {
        assert(find_exact_spec(builtin_scopes().take(68), "diff.plus"@) is None) by {
            reveal_with_fuel(first_match_from, 84);
        };
    }
    add_pinned(b, "diff.plus".to_owned(), Style::new().fg(Color::LightGreen), Ghost(68));
    proof {
        assert(find_exact_spec(builtin_scopes().take(69), "diff.delta"@) is None) by {
            reveal_with_fuel(first_match_from, 84);
        };
    }
    add_pinned(b, "diff.delta".to_owned(), Style::new().fg(Color::LightBlue), Ghost(69));
    proof {
        assert(find_exact_spec(builtin_scopes().take(70), "diff.delta.moved"@) is None) by {
            reveal_with_fuel(first_match_from, 84);
        };
    }
    add_pinned(b, "diff.delta.moved".to_owned(), Style::new().fg(Color::Blue), Ghost(70));
    proof {
        assert(find_exact_spec(builtin_scopes().take(71), "diff.minus"@) is None) by {
            reveal_with_fuel(first_match_from, 84);
        };
    }
    add_pinned(b, "diff.minus".to_owned(), Style::new().fg(Color::LightRed), Ghost(71));
}

/// Append the diagnostic entries: positions 72 to 81 of the table.
#[verifier::rlimit(100)]
fn add_diagnostic_styles(b: &mut ThemeBuilder)
    requires
        old(b).wf(),
        old(b).spec_scopes() == builtin_scopes().take(72),
        old(b).spec_highlights() == builtin_highlights().take(72),
    ensures
        final(b).wf(),
        final(b).spec_name() == old(b).spec_name(),
        final(b).spec_rainbow_length() == old(b).spec_rainbow_length(),
        final(b).spec_scopes() == builtin_scopes().take(82),
        final(b).spec_highlights() == builtin_highlights().take(82),
{
    proof {
        lemma_builtin_entries();
        lemma_builtin_name_chars();
        lemma_modifier_bit_unions();
    }
    proof {
        assert(find_exact_spec(builtin_scopes().take(72), "info"@) is None) by {
            reveal_with_fuel(first_match_from, 84);
        };
    }
    add_pinned(b, "info".to_owned(), Style::new().fg(Color::LightBlue), Ghost(72));
    proof {
        assert(find_exact_spec(builtin_scopes().take(73), "hint"@) is None) by {
            reveal_with_fuel(first_match_from, 84);
        };
    }
    add_pinned(b, "hint".to_owned(), Style::new().fg(Color::LightGray), Ghost(73));
    proof {
        assert(find_exact_spec(builtin_scopes().take(74), "debug"@) is None) by {
            reveal_with_fuel(first_match_from, 84);
        };
    }
    add_pinned(b, "debug".to_owned(), Style::new().fg(Color::LightGray), Ghost(74));
    proof {
        assert(find_exact_spec(builtin_scopes().take(75), "warning"@) is None) by {
            reveal_with_fuel(first_match_from, 84);
        };
    }
    add_pinned(b, "warning".to_owned(), Style::new().fg(Color::LightYellow), Ghost(75));
    proof {
        assert(find_exact_spec(builtin_scopes().take(76), "error"@) is None) by {
            reveal_with_fuel(first_match_from, 84);
        };
    }
    add_pinned(b, "error".to_owned(), Style::new().fg(Color::LightRed), Ghost(76));
    proof {
        assert(find_exact_spec(builtin_scopes().take(77), "diagnostic.info"@) is None) by {
            reveal_with_fuel(first_match_from, 84);
        };
    }
    add_pinned(b, "diagnostic.info".to_owned(), Style::new().underline_color(Color::LightBlue).underline_style(UnderlineStyle::Dotted), Ghost(77));
    proof {
        assert(find_exact_spec(builtin_scopes().take(78), "diagnostic.hint"@) is None) by {
            reveal_with_fuel(first_match_from, 84);
        };
    }
    add_pinned(b, "diagnostic.hint".to_owned(), Style::new().underline_color(Color::LightGray).underline_style(UnderlineStyle::DoubleLine), Ghost(78));
    proof {
        assert(find_exact_spec(builtin_scopes().take(79), "diagnostic.debug"@) is None) by {
            reveal_with_fuel(first_match_from, 84);
        };
    }
    add_pinned(b, "diagnostic.debug".to_owned(), Style::new().underline_color(Color::LightGray).underline_style(UnderlineStyle::Dashed), Ghost(79));
    proof {
        assert(find_exact_spec(builtin_scopes().take(80), "diagnostic.warning"@) is None) by {
            reveal_with_fuel(first_match_from, 84);
        };
    }
    add_pinned(b, "diagnostic.warning".to_owned(), Style::new().underline_color(Color::LightYellow).underline_style(UnderlineStyle::Curl), Ghost(80));
    proof {
        assert(find_exact_spec(builtin_scopes().take(81), "diagnostic.error"@) is None) by {
            reveal_with_fuel(first_match_from, 84);
        };
    }
    add_pinned(b, "diagnostic.error".to_owned(), Style::new().underline_color(Color::LightRed).underline_style(UnderlineStyle::Curl), Ghost(81));
}

/// The ground bitset unions the built-in styles are assembled from.
proof fn lemma_modifier_bit_unions()
    ensures
        0u16 | 0x0001u16 == 0x0001u16,
        0u16 | 0x0002u16 == 0x0002u16,
        0u16 | 0x0004u16 == 0x0004u16,
        0u16 | 0x0040u16 == 0x0040u16,
        0u16 | 0x0100u16 == 0x0100u16,
        0u16 | 0x0050u16 == 0x0050u16,
        0x0040u16 | 0x0010u16 == 0x0050u16,
{
    assert(0u16 | 0x0001u16 == 0x0001u16) by (bit_vector);
    assert(0u16 | 0x0002u16 == 0x0002u16) by (bit_vector);
    assert(0u16 | 0x0004u16 == 0x0004u16) by (bit_vector);
    assert(0u16 | 0x0040u16 == 0x0040u16) by (bit_vector);
    assert(0u16 | 0x0100u16 == 0x0100u16) by (bit_vector);
    assert(0u16 | 0x0050u16 == 0x0050u16) by (bit_vector);
    assert(0x0040u16 | 0x0010u16 == 0x0050u16) by (bit_vector);
}
/// Law: every style of the built-in table keeps to the named 16-color
/// palette: none paints a true-color RGB foreground or background, so the
/// built-in theme reports `is_16_color`.
#[verifier::rlimit(100)]
pub proof fn lemma_builtin_is_16()
    ensures
        forall|i: int|
            0 <= i < builtin_highlights().len() ==> style_is_16(builtin_highlights()[i]),
{
}

} // verus!
