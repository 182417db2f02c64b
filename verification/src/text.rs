//! Text components: the structured chat/console text values the server
//! shares with its protocol layer.
//!
//! A component is a content node (plain text, a translation key with
//! arguments, an entity selector, or a keybind), a style, and a list of
//! child components. Builders set one style field at a time. Console
//! rendering resolves the plain text of the tree and decorates it through
//! the terminal-coloring library, which alone decides whether the terminal
//! gets escape sequences.

use vstd::prelude::*;
use vstd::string::StrSliceExecFns;
use vstd::string::StringExecFns;

use crate::strutil::push_char;

verus! {

/// The sixteen chat color names.
#[derive(Clone, Copy, Debug, PartialEq, Eq, Structural)]
pub enum NamedColor {
    Black,
    DarkBlue,
    DarkGreen,
    DarkAqua,
    DarkRed,
    DarkPurple,
    Gold,
    Gray,
    DarkGray,
    Blue,
    Green,
    Aqua,
    Red,
    LightPurple,
    Yellow,
    White,
}

impl NamedColor {
    /// The registry name of the color.
    pub fn name(self) -> (r: &'static str)
        ensures
            r@ == self.spec_name(),
    {
        match self {
            NamedColor::Black => "black",
            NamedColor::DarkBlue => "dark_blue",
            NamedColor::DarkGreen => "dark_green",
            NamedColor::DarkAqua => "dark_aqua",
            NamedColor::DarkRed => "dark_red",
            NamedColor::DarkPurple => "dark_purple",
            NamedColor::Gold => "gold",
            NamedColor::Gray => "gray",
            NamedColor::DarkGray => "dark_gray",
            NamedColor::Blue => "blue",
            NamedColor::Green => "green",
            NamedColor::Aqua => "aqua",
            NamedColor::Red => "red",
            NamedColor::LightPurple => "light_purple",
            NamedColor::Yellow => "yellow",
            NamedColor::White => "white",
        }
    }

    pub open spec fn spec_name(self) -> Seq<char> {
        match self {
            NamedColor::Black => "black"@,
            NamedColor::DarkBlue => "dark_blue"@,
            NamedColor::DarkGreen => "dark_green"@,
            NamedColor::DarkAqua => "dark_aqua"@,
            NamedColor::DarkRed => "dark_red"@,
            NamedColor::DarkPurple => "dark_purple"@,
            NamedColor::Gold => "gold"@,
            NamedColor::Gray => "gray"@,
            NamedColor::DarkGray => "dark_gray"@,
            NamedColor::Blue => "blue"@,
            NamedColor::Green => "green"@,
            NamedColor::Aqua => "aqua"@,
            NamedColor::Red => "red"@,
            NamedColor::LightPurple => "light_purple"@,
            NamedColor::Yellow => "yellow"@,
            NamedColor::White => "white"@,
        }
    }

    /// The terminal color name the console rendering hands to the coloring
    /// library.
    pub fn console_name(self) -> (r: &'static str)
    {
        match self {
            NamedColor::Black => "black",
            NamedColor::DarkBlue => "blue",
            NamedColor::DarkGreen => "green",
            NamedColor::DarkAqua => "cyan",
            NamedColor::DarkRed => "red",
            NamedColor::DarkPurple => "magenta",
            NamedColor::Gold => "yellow",
            NamedColor::Gray => "white",
            NamedColor::DarkGray => "bright black",
            NamedColor::Blue => "bright blue",
            NamedColor::Green => "bright green",
            NamedColor::Aqua => "bright cyan",
            NamedColor::Red => "bright red",
            NamedColor::LightPurple => "bright magenta",
            NamedColor::Yellow => "bright yellow",
            NamedColor::White => "bright white",
        }
    }
}

/// A 24-bit color.
#[derive(Clone, Copy, Debug, PartialEq, Eq, Structural)]
pub struct RGBColor {
    pub red: u8,
    pub green: u8,
    pub blue: u8,
}

/// A 32-bit color with alpha, for text shadows.
#[derive(Clone, Copy, Debug, PartialEq, Eq, Structural)]
pub struct ARGBColor {
    pub alpha: u8,
    pub red: u8,
    pub green: u8,
    pub blue: u8,
}

/// A text color: one of the sixteen names, or a 24-bit value.
#[derive(Clone, Copy, Debug, PartialEq, Eq, Structural)]
pub enum Color {
    Named(NamedColor),
    Rgb(RGBColor),
}

/// What a click on the text does.
pub enum ClickEvent {
    OpenUrl { url: String },
    RunCommand { command: String },
    SuggestCommand { command: String },
    CopyToClipboard { value: String },
}

/// What hovering over the text shows.
pub enum HoverEvent {
    /// Displays a tooltip with the given text.
    ShowText { value: Vec<TextComponentBase> },
    /// Shows an item.
    ShowItem { id: String, count: Option<i32> },
    /// Shows an entity.
    ShowEntity { id: String, uuid: String, name: Option<Vec<TextComponentBase>> },
}

impl HoverEvent {
    /// A tooltip showing one text component.
    pub fn show_text(text: TextComponent) -> (r: HoverEvent)
        ensures
            r matches HoverEvent::ShowText { value } && value@.len() == 1 && value@[0] == text.0,
    {
        let mut value: Vec<TextComponentBase> = Vec::new();
        value.push(text.0);
        HoverEvent::ShowText { value }
    }

    /// A tooltip showing an entity, optionally with a custom name.
    pub fn show_entity(uuid: String, kind: String, name: Option<TextComponent>) -> (r: HoverEvent)
        ensures
            ({
                &&& r matches HoverEvent::ShowEntity { id, uuid: u, name: n } ==> {
                    &&& id@ == kind@
                    &&& u@ == uuid@
                    &&& match (name, n) {
                        (Option::Some(c), Option::Some(list)) => list@.len() == 1 && list@[0]
                            == c.0,
                        (Option::None, Option::None) => true,
                        _ => false,
                    }
                }
                &&& r is ShowEntity
            }),
    {
        let name_list: Option<Vec<TextComponentBase>> = match name {
            Option::Some(n) => {
                let mut value: Vec<TextComponentBase> = Vec::new();
                value.push(n.0);
                Option::Some(value)
            },
            Option::None => Option::None,
        };
        HoverEvent::ShowEntity { id: kind, uuid, name: name_list }
    }
}

/// Style of a piece of text: color, decoration flags, interaction events.
pub struct Style {
    pub color: Option<Color>,
    pub bold: Option<bool>,
    pub italic: Option<bool>,
    pub underlined: Option<bool>,
    pub strikethrough: Option<bool>,
    pub obfuscated: Option<bool>,
    pub insertion: Option<String>,
    pub click_event: Option<ClickEvent>,
    pub hover_event: Option<HoverEvent>,
    pub font: Option<String>,
    pub shadow_color: Option<ARGBColor>,
}

impl Style {
    /// The style with nothing set.
    pub fn plain() -> (r: Style)
        ensures
            r.spec_is_plain(),
    {
        Style {
            color: Option::None,
            bold: Option::None,
            italic: Option::None,
            underlined: Option::None,
            strikethrough: Option::None,
            obfuscated: Option::None,
            insertion: Option::None,
            click_event: Option::None,
            hover_event: Option::None,
            font: Option::None,
            shadow_color: Option::None,
        }
    }

    /// Whether no field is set.
    pub open spec fn spec_is_plain(self) -> bool {
        &&& self.color is None
        &&& self.bold is None
        &&& self.italic is None
        &&& self.underlined is None
        &&& self.strikethrough is None
        &&& self.obfuscated is None
        &&& self.insertion is None
        &&& self.click_event is None
        &&& self.hover_event is None
        &&& self.font is None
        &&& self.shadow_color is None
    }

    /// Whether no field that affects console rendering is set.
    pub open spec fn spec_is_console_plain(self) -> bool {
        &&& self.color is None
        &&& self.bold is None
        &&& self.italic is None
        &&& self.underlined is None
        &&& self.strikethrough is None
    }
}

/// The actual content of a component.
pub enum TextContent {
    /// Raw text.
    Text { text: String },
    /// Translated text: a key and its arguments.
    Translate { translate: String, with: Vec<TextComponentBase> },
    /// The names of the entities a selector finds.
    EntityNames { selector: String, separator: Option<String> },
    /// A keybind identifier.
    Keybind { keybind: String },
}

/// One node of a text-component tree.
pub struct TextComponentBase {
    /// The actual text.
    pub content: TextContent,
    /// Style of the text: bold, italic, underline, color, events.
    pub style: Style,
    /// Extra child components appended after this node.
    pub extra: Vec<TextComponentBase>,
}

/// A text component.
pub struct TextComponent(pub TextComponentBase);

/// The plain text of a content node, with a translation key standing for
/// itself: resolving keys against the compiled language table is the asset
/// layer's concern, and without that table the key is the fallback the
/// lookup would yield.
pub open spec fn spec_content_text(c: TextContent) -> Seq<char> {
    match c {
        TextContent::Text { text } => text@,
        TextContent::Translate { translate, .. } => translate@,
        TextContent::EntityNames { selector, .. } => selector@,
        TextContent::Keybind { keybind } => keybind@,
    }
}

/// The undecorated text of a whole component tree.
pub open spec fn spec_plain_text(base: TextComponentBase) -> Seq<char>
    decreases base, 0int,
{
    spec_content_text(base.content) + spec_plain_text_children(base.extra@, 0)
}

/// The undecorated text of the children from position `i` on.
pub open spec fn spec_plain_text_children(children: Seq<TextComponentBase>, i: int) -> Seq<char>
    decreases children, children.len() - i,
{
    if i < 0 || i >= children.len() {
        Seq::empty()
    } else {
        spec_plain_text(children[i]) + spec_plain_text_children(children, i + 1)
    }
}

/// Whether no node of the tree styles its console output.
pub open spec fn spec_console_plain(base: TextComponentBase) -> bool
    decreases base, 0int,
{
    base.style.spec_is_console_plain() && spec_console_plain_children(base.extra@, 0)
}

pub open spec fn spec_console_plain_children(children: Seq<TextComponentBase>, i: int) -> bool
    decreases children, children.len() - i,
{
    if i < 0 || i >= children.len() {
        true
    } else {
        spec_console_plain(children[i]) && spec_console_plain_children(children, i + 1)
    }
}

impl TextComponentBase {
    /// Renders the tree for the console: each node's plain text, decorated
    /// in one pass by the terminal-coloring library where styled, followed
    /// by its children in order. On a tree with no console styling the
    /// result is exactly the plain text; on any tree, the rendering splits
    /// into a head carrying the escape-free root text and the children's
    /// renderings in order.
    #[verifier::loop_isolation(false)]
    #[verifier::rlimit(100)]
    pub fn to_pretty_console(self) -> (r: String)
        ensures
            spec_console_plain(self) ==> r@ == spec_plain_text(self),
            spec_no_escape(spec_content_text(self.content)) ==> spec_contains_seq(
                r@,
                spec_content_text(self.content),
            ),
            spec_render_carries(self, r@),
        decreases self,
    {
        let ghost s0 = self;
        let ghost ct = spec_content_text(self.content);
        let TextComponentBase { content, style, extra } = self;
        let base_text: String = match content {
            TextContent::Text { text } => text,
            TextContent::Translate { translate, .. } => translate,
            TextContent::EntityNames { selector, .. } => selector,
            TextContent::Keybind { keybind } => keybind,
        };
        proof {
            lemma_contains_reflexive(ct);
        }
        let color_name: Option<&str> = match &style.color {
            Option::Some(Color::Named(named)) => Option::Some(named.console_name()),
            _ => Option::None,
        };
        let rgb: Option<(u8, u8, u8)> = match &style.color {
            Option::Some(Color::Rgb(c)) => Option::Some((c.red, c.green, c.blue)),
            _ => Option::None,
        };
        let mut text: String = style_text(
            base_text.as_str(),
            color_name,
            rgb,
            style.bold.is_some(),
            style.italic.is_some(),
            style.underlined.is_some(),
            style.strikethrough.is_some(),
        );
        let ghost styled_prefix = text@;
        proof {
            if style.spec_is_console_plain() {
                assert(text@ == ct);
            }
        }
        let ghost child_seq = extra@;
        let ghost mut parts: Seq<Seq<char>> = Seq::empty();
        let mut rest: Vec<TextComponentBase> = reverse_bases(extra);
        let total: usize = rest.len();
        let mut i: usize = 0;
        while rest.len() > 0
            invariant
                s0.extra@ == child_seq,
                total == child_seq.len(),
                rest@.len() + i == child_seq.len(),
                forall|t: int|
                    0 <= t < rest@.len() ==> rest@[t] == child_seq[child_seq.len() - 1 - t],
                parts.len() == i,
                forall|k: int|
                    0 <= k < i ==> spec_render_carries(child_seq[k], #[trigger] parts[k]),
                text@ == styled_prefix + spec_concat_texts(parts, 0),
                spec_console_plain_children(child_seq, 0) ==> text@
                    + spec_plain_text_children(child_seq, i as int) == styled_prefix
                    + spec_plain_text_children(child_seq, 0),
                spec_no_escape(ct) ==> spec_contains_seq(text@, ct),
            decreases rest.len(),
        {
            let child: TextComponentBase = rest.pop().unwrap();
            proof {
                assert(child == child_seq[i as int]);
                lemma_console_plain_children_at(child_seq, i as int);
                assert(decreases_to!(s0 => child));
            }
            let rendered: String = child.to_pretty_console();
            proof {
                if spec_no_escape(ct) {
                    lemma_contains_append(text@, rendered@, ct);
                }
                lemma_concat_texts_push(parts, rendered@, 0);
                parts = parts.push(rendered@);
            }
            text.append(rendered.as_str());
            i = i + 1;
        }
        proof {
            lemma_renders_children_from_parts(child_seq, parts, 0);
            assert(text@ == styled_prefix + spec_concat_texts(parts, 0));
            assert(spec_render_carries(s0, text@));
        }
        text
    }
}

/// Console styling on a subtree follows from console styling on the list.
proof fn lemma_console_plain_children_at(children: Seq<TextComponentBase>, i: int)
    ensures
        spec_console_plain_children(children, 0) && 0 <= i < children.len()
            ==> spec_console_plain(children[i]),
    decreases i + 1,
{
    if 0 <= i < children.len() {
        if i > 0 {
            lemma_console_plain_children_suffix(children, 0, i);
        }
    }
}

proof fn lemma_console_plain_children_suffix(children: Seq<TextComponentBase>, i: int, k: int)
    requires
        0 <= i <= k < children.len(),
    ensures
        spec_console_plain_children(children, i) ==> spec_console_plain(children[k]),
    decreases k - i,
{
    if i < k {
        lemma_console_plain_children_suffix(children, i + 1, k);
    }
}

/// Reverses a list of component bases, so children can be consumed in
/// order by popping.
fn reverse_bases(v: Vec<TextComponentBase>) -> (r: Vec<TextComponentBase>)
    ensures
        r@.len() == v@.len(),
        forall|t: int| 0 <= t < v@.len() ==> r@[t] == v@[v@.len() - 1 - t],
{
    let ghost orig = v@;
    let mut v = v;
    let mut out: Vec<TextComponentBase> = Vec::new();
    while v.len() > 0
        invariant
            v@ =~= orig.take(v@.len() as int),
            out@.len() == orig.len() - v@.len(),
            forall|t: int| 0 <= t < out@.len() ==> out@[t] == orig[orig.len() - 1 - t],
        decreases v.len(),
    {
        let x: TextComponentBase = v.pop().unwrap();
        out.push(x);
        proof {
            assert(v@ =~= orig.take(v@.len() as int));
        }
    }
    out
}

/// Relies on colored::ColoredString and the Colorize methods on it: each
/// selected decoration is recorded on the one ColoredString and the input
/// is rendered once — verbatim when no decoration is selected or the
/// environment disables color, and between style and reset codes otherwise
/// — so an undecorated input passes through unchanged, and the rendering
/// of an escape-free input contains it contiguously.
#[verifier::external_body]
fn style_text(
    s: &str,
    color_name: Option<&str>,
    rgb: Option<(u8, u8, u8)>,
    bold: bool,
    italic: bool,
    underline: bool,
    strikethrough: bool,
) -> (r: String)
    ensures
        spec_no_escape(s@) ==> spec_contains_seq(r@, s@),
        color_name is None && rgb is None && !bold && !italic && !underline && !strikethrough
            ==> r@ == s@,
{
    let mut styled = colored::ColoredString::from(s);
    if let Option::Some(name) = color_name { styled = colored::Colorize::color(styled, name); }
    if let Option::Some(c) = rgb { styled = colored::Colorize::truecolor(styled, c.0, c.1, c.2); }
    if bold { styled = colored::Colorize::bold(styled); }
    if italic { styled = colored::Colorize::italic(styled); }
    if underline { styled = colored::Colorize::underline(styled); }
    if strikethrough { styled = colored::Colorize::strikethrough(styled); }
    styled.to_string()
}

/// Concatenation of a sequence of texts from position `i` on.
pub open spec fn spec_concat_texts(parts: Seq<Seq<char>>, i: int) -> Seq<char>
    decreases parts.len() - i,
{
    if i < 0 || i >= parts.len() {
        Seq::empty()
    } else {
        parts[i] + spec_concat_texts(parts, i + 1)
    }
}

/// `r` renders `base`: some head that carries the node's own escape-free
/// text, followed by the children's renderings in order.
pub open spec fn spec_render_carries(base: TextComponentBase, r: Seq<char>) -> bool
    decreases base, 1int,
{
    exists|head: Seq<char>, tail: Seq<char>|
        #![trigger head + tail]
        {
            &&& r == head + tail
            &&& (spec_no_escape(spec_content_text(base.content)) ==> spec_contains_seq(
                head,
                spec_content_text(base.content),
            ))
            &&& spec_renders_children(base.extra@, 0, tail)
        }
}

/// `tail` splits into renderings of the children from position `i` on.
pub open spec fn spec_renders_children(
    children: Seq<TextComponentBase>,
    i: int,
    tail: Seq<char>,
) -> bool
    decreases children, children.len() - i,
{
    if i < 0 || i >= children.len() {
        true
    } else {
        exists|h: Seq<char>, t2: Seq<char>|
            #![trigger h + t2]
            {
                &&& tail == h + t2
                &&& spec_render_carries(children[i], h)
                &&& spec_renders_children(children, i + 1, t2)
            }
    }
}

/// Appending one more text extends the concatenation on the right.
proof fn lemma_concat_texts_push(parts: Seq<Seq<char>>, x: Seq<char>, i: int)
    requires
        0 <= i <= parts.len(),
    ensures
        spec_concat_texts(parts.push(x), i) == spec_concat_texts(parts, i) + x,
    decreases parts.len() - i,
{
    let p2 = parts.push(x);
    if i < parts.len() {
        lemma_concat_texts_push(parts, x, i + 1);
        assert(p2[i] == parts[i]);
        assert(parts[i] + (spec_concat_texts(parts, i + 1) + x) =~= (parts[i]
            + spec_concat_texts(parts, i + 1)) + x);
    } else {
        assert(spec_concat_texts(parts, i) =~= Seq::<char>::empty());
        assert(p2[i] == x);
        assert(spec_concat_texts(p2, i + 1) =~= Seq::<char>::empty());
        assert(spec_concat_texts(p2, i) =~= x);
        assert(Seq::<char>::empty() + x =~= x);
    }
}

/// Texts that each render one child, concatenated in order, render the
/// children.
proof fn lemma_renders_children_from_parts(
    children: Seq<TextComponentBase>,
    parts: Seq<Seq<char>>,
    i: int,
)
    requires
        parts.len() == children.len(),
        0 <= i <= children.len(),
        forall|k: int|
            i <= k < children.len() ==> spec_render_carries(children[k], #[trigger] parts[k]),
    ensures
        spec_renders_children(children, i, spec_concat_texts(parts, i)),
    decreases children.len() - i,
{
    if i < children.len() {
        lemma_renders_children_from_parts(children, parts, i + 1);
        assert(spec_concat_texts(parts, i) == parts[i] + spec_concat_texts(parts, i + 1));
    }
}

/// No escape character anywhere in the text.
pub open spec fn spec_no_escape(s: Seq<char>) -> bool {
    forall|i: int| 0 <= i < s.len() ==> s[i] != '\u{1b}'
}

/// `needle` occurs contiguously inside `hay`.
pub open spec fn spec_contains_seq(hay: Seq<char>, needle: Seq<char>) -> bool {
    exists|k: int|
        #![trigger hay.subrange(k, k + needle.len())]
        0 <= k <= hay.len() - needle.len() && hay.subrange(k, k + needle.len()) == needle
}

/// A sequence contains itself.
proof fn lemma_contains_reflexive(s: Seq<char>)
    ensures
        spec_contains_seq(s, s),
{
    assert(s.subrange(0, 0 + s.len() as int) =~= s);
}

/// Containment survives appending on the right.
proof fn lemma_contains_append(a: Seq<char>, b: Seq<char>, sub: Seq<char>)
    requires
        spec_contains_seq(a, sub),
    ensures
        spec_contains_seq(a + b, sub),
{
    let k = choose|k: int|
        0 <= k <= a.len() - sub.len() && #[trigger] a.subrange(k, k + sub.len()) == sub;
    assert((a + b).subrange(k, k + sub.len()) =~= a.subrange(k, k + sub.len()));
}

impl TextComponent {
    /// A plain text component.
    pub fn text(plain: &str) -> (r: TextComponent)
        ensures
            r.0.content matches TextContent::Text { text } && text@ == plain@,
            r.0.style.spec_is_plain(),
            r.0.extra@.len() == 0,
    {
        TextComponent(
            TextComponentBase {
                content: TextContent::Text { text: String::from_str(plain) },
                style: Style::plain(),
                extra: Vec::new(),
            },
        )
    }

    /// A translated component: a key and its arguments.
    pub fn translate(key: &str, with: Vec<TextComponent>) -> (r: TextComponent)
        ensures
            ({
                &&& r.0.content matches TextContent::Translate { translate, with: w }
                    ==> translate@ == key@ && w@.len() == with@.len() && (forall|t: int|
                    0 <= t < with@.len() ==> w@[t] == (#[trigger] with@[t]).0)
                &&& r.0.content is Translate
            }),
            r.0.style.spec_is_plain(),
            r.0.extra@.len() == 0,
    {
        let ghost orig = with@;
        let mut rev: Vec<TextComponent> = reverse_components(with);
        let mut bases: Vec<TextComponentBase> = Vec::new();
        while rev.len() > 0
            invariant
                rev@.len() + bases@.len() == orig.len(),
                forall|t: int| 0 <= t < rev@.len() ==> rev@[t] == orig[orig.len() - 1 - t],
                forall|t: int| 0 <= t < bases@.len() ==> bases@[t] == (#[trigger] orig[t]).0,
            decreases rev.len(),
        {
            let c: TextComponent = rev.pop().unwrap();
            bases.push(c.0);
        }
        TextComponent(
            TextComponentBase {
                content: TextContent::Translate {
                    translate: String::from_str(key),
                    with: bases,
                },
                style: Style::plain(),
                extra: Vec::new(),
            },
        )
    }

    /// A component around explicit content.
    pub fn from_content(content: TextContent) -> (r: TextComponent)
        ensures
            r.0.content == content,
            r.0.style.spec_is_plain(),
            r.0.extra@.len() == 0,
    {
        TextComponent(TextComponentBase { content, style: Style::plain(), extra: Vec::new() })
    }

    /// Appends a child component.
    pub fn add_child(self, child: TextComponent) -> (r: TextComponent)
        ensures
            r.0.content == self.0.content,
            r.0.style == self.0.style,
            r.0.extra@ == self.0.extra@.push(child.0),
    {
        let TextComponent(mut base) = self;
        base.extra.push(child.0);
        TextComponent(base)
    }

    /// Appends a plain-text child.
    pub fn add_text(self, text: &str) -> (r: TextComponent)
        ensures
            r.0.content == self.0.content,
            r.0.style == self.0.style,
            r.0.extra@.len() == self.0.extra@.len() + 1,
            r.0.extra@.drop_last() == self.0.extra@,
            r.0.extra@.last().content matches TextContent::Text { text: t } && t@ == text@,
            r.0.extra@.last().style.spec_is_plain(),
            r.0.extra@.last().extra@.len() == 0,
    {
        let TextComponent(mut base) = self;
        base.extra.push(
            TextComponentBase {
                content: TextContent::Text { text: String::from_str(text) },
                style: Style::plain(),
                extra: Vec::new(),
            },
        );
        TextComponent(base)
    }

    /// The plain text of the root content node. A translation key stands
    /// for itself: the compiled language table lives in the asset layer,
    /// and without it the key is the fallback the lookup would yield.
    pub fn get_text(self) -> (r: String)
        ensures
            r@ == spec_content_text(self.0.content),
    {
        match self.0.content {
            TextContent::Text { text } => text,
            TextContent::Translate { translate, .. } => translate,
            TextContent::EntityNames { selector, .. } => selector,
            TextContent::Keybind { keybind } => keybind,
        }
    }

    /// A chat line built from a server format string: `&` becomes the
    /// section sign, and the display-name and message markers are filled
    /// in.
    pub fn chat_decorated(format: String, player_name: String, content: String) -> (r:
        TextComponent)
        ensures
            ({
                let resolved = crate::strutil::spec_replace(
                    crate::strutil::spec_replace(
                        crate::strutil::spec_replace(format@, "&"@, "\u{a7}"@),
                        "{DISPLAYNAME}"@,
                        player_name@,
                    ),
                    "{MESSAGE}"@,
                    content@,
                );
                r.0.content matches TextContent::Text { text } && text@ == resolved
            }),
            r.0.style.spec_is_plain(),
            r.0.extra@.len() == 0,
    {
        proof {
            reveal_strlit("&");
            reveal_strlit("\u{a7}");
            reveal_strlit("{DISPLAYNAME}");
            reveal_strlit("{MESSAGE}");
        }
        let step1: String = crate::strutil::replace_str(format.as_str(), "&", "\u{a7}");
        let step2: String = crate::strutil::replace_str(
            step1.as_str(),
            "{DISPLAYNAME}",
            player_name.as_str(),
        );
        let step3: String = crate::strutil::replace_str(
            step2.as_str(),
            "{MESSAGE}",
            content.as_str(),
        );
        TextComponent(
            TextComponentBase {
                content: TextContent::Text { text: step3 },
                style: Style::plain(),
                extra: Vec::new(),
            },
        )
    }

    /// Renders the component for the console.
    pub fn to_pretty_console(self) -> (r: String)
        ensures
            spec_console_plain(self.0) ==> r@ == spec_plain_text(self.0),
            spec_no_escape(spec_content_text(self.0.content)) ==> spec_contains_seq(
                r@,
                spec_content_text(self.0.content),
            ),
            spec_render_carries(self.0, r@),
    {
        self.0.to_pretty_console()
    }

    /// Sets the color.
    pub fn color(self, color: Color) -> (r: TextComponent)
        ensures
            r.0.content == self.0.content,
            r.0.extra@ == self.0.extra@,
            r.0.style == (Style { color: Option::Some(color), ..self.0.style }),
    {
        let TextComponent(mut base) = self;
        base.style.color = Option::Some(color);
        TextComponent(base)
    }

    /// Sets a named color.
    pub fn color_named(self, color: NamedColor) -> (r: TextComponent)
        ensures
            r.0.content == self.0.content,
            r.0.extra@ == self.0.extra@,
            r.0.style == (Style { color: Option::Some(Color::Named(color)), ..self.0.style }),
    {
        self.color(Color::Named(color))
    }

    /// Sets a 24-bit color.
    pub fn color_rgb(self, color: RGBColor) -> (r: TextComponent)
        ensures
            r.0.content == self.0.content,
            r.0.extra@ == self.0.extra@,
            r.0.style == (Style { color: Option::Some(Color::Rgb(color)), ..self.0.style }),
    {
        self.color(Color::Rgb(color))
    }

    /// Makes the text bold.
    pub fn bold(self) -> (r: TextComponent)
        ensures
            r.0.content == self.0.content,
            r.0.extra@ == self.0.extra@,
            r.0.style == (Style { bold: Option::Some(true), ..self.0.style }),
    {
        let TextComponent(mut base) = self;
        base.style.bold = Option::Some(true);
        TextComponent(base)
    }

    /// Makes the text italic.
    pub fn italic(self) -> (r: TextComponent)
        ensures
            r.0.content == self.0.content,
            r.0.extra@ == self.0.extra@,
            r.0.style == (Style { italic: Option::Some(true), ..self.0.style }),
    {
        let TextComponent(mut base) = self;
        base.style.italic = Option::Some(true);
        TextComponent(base)
    }

    /// Makes the text underlined.
    pub fn underlined(self) -> (r: TextComponent)
        ensures
            r.0.content == self.0.content,
            r.0.extra@ == self.0.extra@,
            r.0.style == (Style { underlined: Option::Some(true), ..self.0.style }),
    {
        let TextComponent(mut base) = self;
        base.style.underlined = Option::Some(true);
        TextComponent(base)
    }

    /// Makes the text strikethrough.
    pub fn strikethrough(self) -> (r: TextComponent)
        ensures
            r.0.content == self.0.content,
            r.0.extra@ == self.0.extra@,
            r.0.style == (Style { strikethrough: Option::Some(true), ..self.0.style }),
    {
        let TextComponent(mut base) = self;
        base.style.strikethrough = Option::Some(true);
        TextComponent(base)
    }

    /// Makes the text obfuscated.
    pub fn obfuscated(self) -> (r: TextComponent)
        ensures
            r.0.content == self.0.content,
            r.0.extra@ == self.0.extra@,
            r.0.style == (Style { obfuscated: Option::Some(true), ..self.0.style }),
    {
        let TextComponent(mut base) = self;
        base.style.obfuscated = Option::Some(true);
        TextComponent(base)
    }

    /// Text inserted into the chat input when the text is shift-clicked.
    pub fn insertion(self, text: String) -> (r: TextComponent)
        ensures
            r.0.content == self.0.content,
            r.0.extra@ == self.0.extra@,
            r.0.style == (Style { insertion: Option::Some(text), ..self.0.style }),
    {
        let TextComponent(mut base) = self;
        base.style.insertion = Option::Some(text);
        TextComponent(base)
    }

    /// Attaches a click event.
    pub fn click_event(self, event: ClickEvent) -> (r: TextComponent)
        ensures
            r.0.content == self.0.content,
            r.0.extra@ == self.0.extra@,
            r.0.style == (Style { click_event: Option::Some(event), ..self.0.style }),
    {
        let TextComponent(mut base) = self;
        base.style.click_event = Option::Some(event);
        TextComponent(base)
    }

    /// Attaches a hover event.
    pub fn hover_event(self, event: HoverEvent) -> (r: TextComponent)
        ensures
            r.0.content == self.0.content,
            r.0.extra@ == self.0.extra@,
            r.0.style == (Style { hover_event: Option::Some(event), ..self.0.style }),
    {
        let TextComponent(mut base) = self;
        base.style.hover_event = Option::Some(event);
        TextComponent(base)
    }

    /// Sets the font resource location.
    pub fn font(self, resource_location: String) -> (r: TextComponent)
        ensures
            r.0.content == self.0.content,
            r.0.extra@ == self.0.extra@,
            r.0.style == (Style { font: Option::Some(resource_location), ..self.0.style }),
    {
        let TextComponent(mut base) = self;
        base.style.font = Option::Some(resource_location);
        TextComponent(base)
    }

    /// Overrides the shadow color.
    pub fn shadow_color(self, color: ARGBColor) -> (r: TextComponent)
        ensures
            r.0.content == self.0.content,
            r.0.extra@ == self.0.extra@,
            r.0.style == (Style { shadow_color: Option::Some(color), ..self.0.style }),
    {
        let TextComponent(mut base) = self;
        base.style.shadow_color = Option::Some(color);
        TextComponent(base)
    }
}

/// Reverses a list of components.
fn reverse_components(v: Vec<TextComponent>) -> (r: Vec<TextComponent>)
    ensures
        r@.len() == v@.len(),
        forall|t: int| 0 <= t < v@.len() ==> r@[t] == v@[v@.len() - 1 - t],
{
    let ghost orig = v@;
    let mut v = v;
    let mut out: Vec<TextComponent> = Vec::new();
    while v.len() > 0
        invariant
            v@ =~= orig.take(v@.len() as int),
            out@.len() == orig.len() - v@.len(),
            forall|t: int| 0 <= t < out@.len() ==> out@[t] == orig[orig.len() - 1 - t],
        decreases v.len(),
    {
        let x: TextComponent = v.pop().unwrap();
        out.push(x);
        proof {
            assert(v@ =~= orig.take(v@.len() as int));
        }
    }
    out
}

} // verus!
