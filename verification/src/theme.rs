use vstd::prelude::*;

verus! {

use crate::highlight::{
    decode_rgb_spec, encode_rgb_spec, lemma_rgb_round_trip, Highlight, RGB_START,
};
use crate::style::{empty_style, rgb_fg_style, style_is_16, Color, Style};
use vstd::string::StrSliceExecFns;

/// The index of the last `'.'` in a scope name, or `-1` when the name has
/// no dot. A scope name falls back from `name` to `name[.. last_dot_pos]`.
pub open spec fn last_dot_pos(s: Seq<char>) -> int
    decreases s.len(),
{
    if s.len() == 0 {
        -1
    } else if s[s.len() - 1] == '.' {
        s.len() - 1
    } else {
        last_dot_pos(s.drop_last())
    }
}

/// `last_dot_pos` names the position of the last dot exactly: it stays in
/// range, it points at a dot whenever one exists, and no dot follows it.
pub proof fn lemma_last_dot_pos(s: Seq<char>)
    ensures
        -1 <= last_dot_pos(s) < s.len(),
        last_dot_pos(s) >= 0 ==> s[last_dot_pos(s)] == '.',
        forall|j: int| last_dot_pos(s) < j < s.len() ==> s[j] != '.',
    decreases s.len(),
{
    if s.len() == 0 {
    } else if s[s.len() - 1] == '.' {
    } else {
        lemma_last_dot_pos(s.drop_last());
        assert forall|j: int| last_dot_pos(s) < j < s.len() implies s[j] != '.' by {
            if j < s.len() - 1 {
                assert(s.drop_last()[j] == s[j]);
            }
        }
        if last_dot_pos(s) >= 0 {
            assert(s.drop_last()[last_dot_pos(s)] == s[last_dot_pos(s)]);
        }
    }
}

/// The index of the first entry of `scopes` at position `i` or later that
/// equals `name`, if any.
pub open spec fn first_match_from(scopes: Seq<Seq<char>>, name: Seq<char>, i: int) -> Option<int>
    decreases scopes.len() - i,
{
    if i < 0 || i >= scopes.len() {
        None
    } else if scopes[i] == name {
        Some(i)
    } else {
        first_match_from(scopes, name, i + 1)
    }
}

/// The index of the first entry of `scopes` equal to `name`, if any: the
/// meaning of an exact scope lookup.
pub open spec fn find_exact_spec(scopes: Seq<Seq<char>>, name: Seq<char>) -> Option<int> {
    first_match_from(scopes, name, 0)
}

/// `first_match_from` finds the first match and nothing else: a `Some`
/// points at a matching entry preceded by no other match from `i` on, and a
/// `None` means no entry from `i` on matches.
pub proof fn lemma_first_match_from(scopes: Seq<Seq<char>>, name: Seq<char>, i: int)
    requires
        0 <= i <= scopes.len(),
    ensures
        match first_match_from(scopes, name, i) {
            Some(k) => i <= k < scopes.len() && scopes[k] == name && (forall|j: int|
                i <= j < k ==> scopes[j] != name),
            None => forall|j: int| i <= j < scopes.len() ==> scopes[j] != name,
        },
    decreases scopes.len() - i,
{
    if i < scopes.len() && scopes[i] != name {
        lemma_first_match_from(scopes, name, i + 1);
    }
}

/// Cascading resolution: the index found for the longest prefix of `name`,
/// cut at dot boundaries from most to least specific, that occurs in
/// `scopes`; nothing when no prefix occurs.
pub open spec fn resolve_spec(scopes: Seq<Seq<char>>, name: Seq<char>) -> Option<int>
    decreases name.len(),
{
    if find_exact_spec(scopes, name) is Some {
        find_exact_spec(scopes, name)
    } else if 0 <= last_dot_pos(name) < name.len() {
        resolve_spec(scopes, name.subrange(0, last_dot_pos(name)))
    } else {
        None
    }
}

/// Whether the characters of `a` and `b` are the same sequence.
fn str_eq(a: &str, b: &str) -> (r: bool)
    ensures
        r == (a@ == b@),
{
    let na = a.unicode_len();
    let nb = b.unicode_len();
    if na != nb {
        return false;
    }
    let mut i: usize = 0;
    while i < na
        invariant
            na == a@.len(),
            na == b@.len(),
            i <= na,
            forall|j: int| 0 <= j < i ==> a@[j] == b@[j],
        decreases na - i,
    {
        if a.get_char(i) != b.get_char(i) {
            return false;
        }
        i = i + 1;
    }
    proof {
        assert(a@ =~= b@);
    }
    true
}

/// The position of the last `'.'` of `s`, found by scanning backwards.
fn rfind_dot(s: &str) -> (r: Option<usize>)
    ensures
        match r {
            Some(i) => i as int == last_dot_pos(s@) && i < s@.len(),
            None => last_dot_pos(s@) == -1,
        },
{
    let n = s.unicode_len();
    let mut i = n;
    while i > 0
        invariant
            i <= n,
            n == s@.len(),
            forall|j: int| i <= j < n ==> s@[j] != '.',
        decreases i,
    {
        i = i - 1;
        if s.get_char(i) == '.' {
            proof {
                lemma_last_dot_pos(s@);
            }
            return Some(i);
        }
    }
    proof {
        lemma_last_dot_pos(s@);
    }
    None
}

/// An immutable, named style table. An ordered sequence of scope names and
/// a parallel ordered sequence of styles are kept in lockstep: the entry at
/// index `i` is the style of the `i`-th scope name, and `i` is also the
/// integer of the `Highlight` that refers to it. The first
/// `rainbow_length` entries are the bracket-rainbow palette. Built once,
/// through [`ThemeBuilder`], and never mutated afterward.
#[derive(Clone, Debug)]
pub struct Theme {
    name: String,
    scopes: Vec<String>,
    highlights: Vec<Style>,
    rainbow_length: usize,
}

impl Theme {
    /// The theme's name, as a sequence of characters.
    pub closed spec fn spec_name(&self) -> Seq<char> {
        self.name@
    }

    /// The ordered scope names, each as a sequence of characters.
    pub closed spec fn spec_scopes(&self) -> Seq<Seq<char>> {
        self.scopes.deep_view()
    }

    /// The ordered styles, parallel to `spec_scopes`.
    pub closed spec fn spec_highlights(&self) -> Seq<Style> {
        self.highlights@
    }

    /// How many leading entries are the bracket-rainbow palette.
    pub closed spec fn spec_rainbow_length(&self) -> int {
        self.rainbow_length as int
    }

    /// The table's invariant: scopes and styles stay in lockstep, the
    /// rainbow prefix fits, every index stays inside the indexed region of
    /// the identifier space, and scope names are pairwise distinct.
    pub open spec fn wf(&self) -> bool {
        &&& self.spec_scopes().len() == self.spec_highlights().len()
        &&& 0 <= self.spec_rainbow_length() <= self.spec_scopes().len()
        &&& self.spec_scopes().len() <= RGB_START as int
        &&& forall|a: int, b: int|
            0 <= a < b < self.spec_scopes().len() ==> self.spec_scopes()[a]
                != self.spec_scopes()[b]
    }

    /// Create a `Highlight` that encodes an RGB color inline; total for
    /// every triple, and always lands strictly inside the inline-RGB
    /// region.
    pub fn rgb_highlight(r: u8, g: u8, b: u8) -> (h: Highlight)
        ensures
            h@ == encode_rgb_spec(r, g, b),
            decode_rgb_spec(h@) == Some((r, g, b)),
    {
        let packed: u32 = 0xFF00_0000u32 | ((r as u32) << 16) | ((g as u32) << 8) | (b as u32);
        assert(packed >= 0xFF00_0000u32) by (bit_vector)
            requires
                packed == 0xFF00_0000u32 | ((r as u32) << 16) | ((g as u32) << 8) | (b as u32),
        ;
        proof {
            lemma_rgb_round_trip(r, g, b);
        }
        Highlight::new(packed - 1)
    }

    /// Interpret a `Highlight` as an inline RGB color: the triple it
    /// encodes when its integer lies strictly above `RGB_START`, and
    /// nothing for an indexed highlight.
    pub fn decode_rgb_highlight(highlight: Highlight) -> (r: Option<(u8, u8, u8)>)
        ensures
            r == decode_rgb_spec(highlight@),
    {
        let v = highlight.get();
        if v > RGB_START {
            let w = v + 1;
            Some((((w >> 16) & 0xFF) as u8, ((w >> 8) & 0xFF) as u8, (w & 0xFF) as u8))
        } else {
            None
        }
    }

    /// The style a `Highlight` denotes: a synthesized foreground style for
    /// an inline RGB value, and the table entry for an index. An indexed
    /// highlight must index this theme's table; one out of range could only
    /// come from a different theme or broken bookkeeping, a programming
    /// error this contract excludes.
    pub fn highlight(&self, highlight: Highlight) -> (s: Style)
        requires
            self.wf(),
            decode_rgb_spec(highlight@) is None ==> highlight@ < self.spec_highlights().len(),
        ensures
            match decode_rgb_spec(highlight@) {
                Some((r, g, b)) => s == rgb_fg_style(r, g, b),
                None => s == self.spec_highlights()[highlight@ as int],
            },
    {
        match Self::decode_rgb_highlight(highlight) {
            Some((red, green, blue)) => Style::new().fg(Color::Rgb(red, green, blue)),
            None => self.highlights[highlight.idx()],
        }
    }

    /// The scope name stored at an indexed highlight's index.
    pub fn scope(&self, highlight: Highlight) -> (r: &str)
        requires
            self.wf(),
            highlight@ < self.spec_scopes().len(),
        ensures
            r@ == self.spec_scopes()[highlight@ as int],
    {
        self.scopes[highlight.idx()].as_str()
    }

    /// The theme's name.
    pub fn name(&self) -> (r: &str)
        ensures
            r@ == self.spec_name(),
    {
        self.name.as_str()
    }

    /// The style of a scope after cascading fallback, or the empty style
    /// when no dot-separated prefix of the name is defined; never fails.
    pub fn get(&self, scope: &str) -> (r: Style)
        requires
            self.wf(),
        ensures
            match resolve_spec(self.spec_scopes(), scope@) {
                Some(i) => r == self.spec_highlights()[i],
                None => r == empty_style(),
            },
    {
        match self.try_get(scope) {
            Some(style) => style,
            None => Style::new(),
        }
    }

    /// The style of a scope, falling back to dot-separated broader scopes:
    /// if `ui.text.focus` is not defined, `ui.text` is tried and then `ui`.
    pub fn try_get(&self, scope: &str) -> (r: Option<Style>)
        requires
            self.wf(),
        ensures
            match resolve_spec(self.spec_scopes(), scope@) {
                Some(i) => r == Some(self.spec_highlights()[i]),
                None => r is None,
            },
    {
        match self.find_highlight(scope) {
            Some(h) => Some(self.highlights[h.idx()]),
            None => None,
        }
    }

    /// The style of a scope without any fallback: if `ui.text.focus` is not
    /// defined the result is nothing, even when `ui.text` is defined.
    pub fn try_get_exact(&self, scope: &str) -> (r: Option<Style>)
        requires
            self.wf(),
        ensures
            match find_exact_spec(self.spec_scopes(), scope@) {
                Some(i) => r == Some(self.spec_highlights()[i]),
                None => r is None,
            },
    {
        match self.find_highlight_exact(scope) {
            Some(h) => Some(self.highlights[h.idx()]),
            None => None,
        }
    }

    /// The ordered scope names; the position of a name is the integer of
    /// the `Highlight` that refers to it.
    pub fn scopes(&self) -> (r: &[String])
        ensures
            r@.len() == self.spec_scopes().len(),
            forall|i: int| 0 <= i < r@.len() ==> r@[i]@ == self.spec_scopes()[i],
    {
        self.scopes.as_slice()
    }

    /// The indexed `Highlight` of the first scope exactly equal to `scope`,
    /// if any; no fallback.
    pub fn find_highlight_exact(&self, scope: &str) -> (r: Option<Highlight>)
        requires
            self.wf(),
        ensures
            match r {
                Some(h) => find_exact_spec(self.spec_scopes(), scope@) == Some(h@ as int) && h@
                    < self.spec_scopes().len(),
                None => find_exact_spec(self.spec_scopes(), scope@) is None,
            },
    {
        let ghost ss = self.spec_scopes();
        let n = self.scopes.len();
        let mut i: usize = 0;
        while i < n
            invariant
                self.wf(),
                ss == self.spec_scopes(),
                n == self.spec_scopes().len(),
                i <= n,
                first_match_from(ss, scope@, 0) == first_match_from(ss, scope@, i as int),
            decreases n - i,
        {
            if str_eq(self.scopes[i].as_str(), scope) {
                return Some(Highlight::new(i as u32));
            }
            i = i + 1;
        }
        None
    }

    /// The indexed `Highlight` for a scope after cascading fallback:
    /// the same walk as `try_get`, returning the identifier instead of the
    /// style. Intended to be called once per distinct name and cached.
    pub fn find_highlight(&self, scope: &str) -> (r: Option<Highlight>)
        requires
            self.wf(),
        ensures
            match r {
                Some(h) => resolve_spec(self.spec_scopes(), scope@) == Some(h@ as int) && h@
                    < self.spec_scopes().len(),
                None => resolve_spec(self.spec_scopes(), scope@) is None,
            },
    {
        let mut cur: &str = scope;
        loop
            invariant
                self.wf(),
                resolve_spec(self.spec_scopes(), cur@) == resolve_spec(
                    self.spec_scopes(),
                    scope@,
                ),
            decreases cur@.len(),
        {
            match self.find_highlight_exact(cur) {
                Some(h) => {
                    return Some(h);
                },
                None => {},
            }
            match rfind_dot(cur) {
                Some(i) => {
                    cur = cur.substring_char(0, i);
                },
                None => {
                    return None;
                },
            }
        }
    }

    /// Whether the theme needs no true-color support: true exactly when no
    /// style of the table uses an RGB foreground or background.
    pub fn is_16_color(&self) -> (r: bool)
        ensures
            r == (forall|i: int|
                0 <= i < self.spec_highlights().len() ==> style_is_16(self.spec_highlights()[i])),
    {
        let n = self.highlights.len();
        let mut i: usize = 0;
        while i < n
            invariant
                n == self.spec_highlights().len(),
                i <= n,
                forall|j: int| 0 <= j < i ==> style_is_16(self.spec_highlights()[j]),
            decreases n - i,
        {
            if style_uses_rgb(&self.highlights[i]) {
                return false;
            }
            i = i + 1;
        }
        true
    }

    /// How many leading entries of the table are the bracket-rainbow
    /// palette.
    pub fn rainbow_length(&self) -> (r: usize)
        ensures
            r == self.spec_rainbow_length(),
    {
        self.rainbow_length
    }
}

impl Default for Theme {
    /// The empty theme: no name, no entries, no rainbow prefix.
    fn default() -> (t: Theme)
        ensures
            t.wf(),
            t.spec_name() == Seq::<char>::empty(),
            t.spec_scopes() == Seq::<Seq<char>>::empty(),
            t.spec_highlights() == Seq::<Style>::empty(),
            t.spec_rainbow_length() == 0,
    {
        let t = Theme {
            name: String::new(),
            scopes: Vec::new(),
            highlights: Vec::new(),
            rainbow_length: 0,
        };
        proof {
            assert(t.spec_scopes() =~= Seq::<Seq<char>>::empty());
        }
        t
    }
}

/// Builds a [`Theme`] in a single deterministic pass: append the rainbow
/// palette first, mark its end, then append the remaining scope/style pairs
/// in declaration order. Every append assigns the next sequential index to
/// the scope name and its style at once, so the two sequences can never
/// fall out of lockstep.
pub struct ThemeBuilder {
    name: String,
    scopes: Vec<String>,
    highlights: Vec<Style>,
    rainbow_length: usize,
}

impl ThemeBuilder {
    /// The theme name the builder was started with.
    pub closed spec fn spec_name(&self) -> Seq<char> {
        self.name@
    }

    /// The scope names appended so far, in order.
    pub closed spec fn spec_scopes(&self) -> Seq<Seq<char>> {
        self.scopes.deep_view()
    }

    /// The styles appended so far, parallel to `spec_scopes`.
    pub closed spec fn spec_highlights(&self) -> Seq<Style> {
        self.highlights@
    }

    /// The rainbow boundary recorded so far.
    pub closed spec fn spec_rainbow_length(&self) -> int {
        self.rainbow_length as int
    }

    /// The builder maintains the same invariant the finished table has.
    pub open spec fn wf(&self) -> bool {
        &&& self.spec_scopes().len() == self.spec_highlights().len()
        &&& 0 <= self.spec_rainbow_length() <= self.spec_scopes().len()
        &&& self.spec_scopes().len() <= RGB_START as int
        &&& forall|a: int, b: int|
            0 <= a < b < self.spec_scopes().len() ==> self.spec_scopes()[a]
                != self.spec_scopes()[b]
    }

    /// An empty builder for a theme of the given name.
    pub fn new(name: String) -> (b: ThemeBuilder)
        ensures
            b.wf(),
            b.spec_name() == name@,
            b.spec_scopes() == Seq::<Seq<char>>::empty(),
            b.spec_highlights() == Seq::<Style>::empty(),
            b.spec_rainbow_length() == 0,
    {
        let b = ThemeBuilder { name, scopes: Vec::new(), highlights: Vec::new(), rainbow_length: 0 };
        proof {
            assert(b.spec_scopes() =~= Seq::<Seq<char>>::empty());
        }
        b
    }

    /// Append one scope/style pair at the next index. The pair is appended
    /// exactly when the name is new and the table still has room below the
    /// indexed region's bound; otherwise nothing changes.
    pub fn add_style(&mut self, scope: String, style: Style) -> (added: bool)
        requires
            old(self).wf(),
        ensures
            final(self).wf(),
            final(self).spec_name() == old(self).spec_name(),
            final(self).spec_rainbow_length() == old(self).spec_rainbow_length(),
            added == (find_exact_spec(old(self).spec_scopes(), scope@) is None
                && old(self).spec_scopes().len() < RGB_START as int),
            added ==> final(self).spec_scopes() == old(self).spec_scopes().push(scope@)
                && final(self).spec_highlights() == old(self).spec_highlights().push(style),
            !added ==> final(self).spec_scopes() == old(self).spec_scopes()
                && final(self).spec_highlights() == old(self).spec_highlights(),
    {
        let ghost ss = self.spec_scopes();
        if self.scopes.len() >= (RGB_START as usize) {
            proof {
                lemma_first_match_from(ss, scope@, 0);
            }
            return false;
        }
        let n = self.scopes.len();
        let mut i: usize = 0;
        while i < n
            invariant
                self.wf(),
                ss == self.spec_scopes(),
                n == self.spec_scopes().len(),
                i <= n,
                first_match_from(ss, scope@, 0) == first_match_from(ss, scope@, i as int),
            decreases n - i,
        {
            if str_eq(self.scopes[i].as_str(), scope.as_str()) {
                return false;
            }
            i = i + 1;
        }
        proof {
            lemma_first_match_from(ss, scope@, 0);
        }
        self.scopes.push(scope);
        self.highlights.push(style);
        proof {
            assert(self.spec_scopes() =~= ss.push(scope@));
        }
        true
    }

    /// Record that every entry appended so far belongs to the rainbow
    /// palette: the boundary becomes the current number of entries.
    pub fn end_rainbow(&mut self)
        requires
            old(self).wf(),
        ensures
            final(self).wf(),
            final(self).spec_name() == old(self).spec_name(),
            final(self).spec_scopes() == old(self).spec_scopes(),
            final(self).spec_highlights() == old(self).spec_highlights(),
            final(self).spec_rainbow_length() == old(self).spec_scopes().len(),
    {
        self.rainbow_length = self.scopes.len();
    }

    /// Finish construction; the resulting table is immutable and carries
    /// exactly what was appended.
    pub fn build(self) -> (t: Theme)
        requires
            self.wf(),
        ensures
            t.wf(),
            t.spec_name() == self.spec_name(),
            t.spec_scopes() == self.spec_scopes(),
            t.spec_highlights() == self.spec_highlights(),
            t.spec_rainbow_length() == self.spec_rainbow_length(),
    {
        Theme {
            name: self.name,
            scopes: self.scopes,
            highlights: self.highlights,
            rainbow_length: self.rainbow_length,
        }
    }
}

/// Law (disjointness): a `Highlight` holding a valid index of a
/// well-formed theme's table never decodes as an RGB triple, so indexed and
/// inline-RGB identifiers can never be confused.
pub proof fn lemma_indexed_highlight_decodes_none(t: &Theme, idx: int)
    requires
        t.wf(),
        0 <= idx < t.spec_scopes().len(),
    ensures
        decode_rgb_spec(idx as u32) is None,
{
}

/// Law (index/name symmetry): in a well-formed theme, exact lookup of the
/// scope name stored at index `i` finds exactly index `i`; together with
/// the disjointness law and the contract of `Theme::highlight`, the
/// identifier `i` converts to exactly the style stored at index `i`.
pub proof fn lemma_index_name_symmetry(t: &Theme, i: int)
    requires
        t.wf(),
        0 <= i < t.spec_scopes().len(),
    ensures
        find_exact_spec(t.spec_scopes(), t.spec_scopes()[i]) == Some(i),
        decode_rgb_spec(i as u32) is None,
{
    lemma_first_match_found(t.spec_scopes(), t.spec_scopes()[i], 0, i);
}

/// In a table of pairwise-distinct names, searching from any point at or
/// before `i` for the name stored at `i` finds `i`.
proof fn lemma_first_match_found(scopes: Seq<Seq<char>>, name: Seq<char>, k: int, i: int)
    requires
        0 <= k <= i < scopes.len(),
        scopes[i] == name,
        forall|a: int, b: int| 0 <= a < b < scopes.len() ==> scopes[a] != scopes[b],
    ensures
        first_match_from(scopes, name, k) == Some(i),
    decreases i - k,
{
    if k < i {
        lemma_first_match_found(scopes, name, k + 1, i);
    }
}

/// Whether a style's foreground or background is a true-color RGB value.
fn style_uses_rgb(s: &Style) -> (r: bool)
    ensures
        r == !style_is_16(*s),
{
    let fg_rgb = match s.fg {
        Some(Color::Rgb(..)) => true,
        _ => false,
    };
    let bg_rgb = match s.bg {
        Some(Color::Rgb(..)) => true,
        _ => false,
    };
    fg_rgb || bg_rgb
}

} // verus!
