//! Binary named-tag encoding of text components, as the protocol sends
//! them: an unnamed root compound whose fields follow the component's
//! content, style and children in declaration order. The byte layout is
//! defined by the specification functions here; the executable writer is
//! proved to produce exactly those bytes.

use vstd::prelude::*;
use vstd::utf8::encode_utf8;

use crate::text::{
    ARGBColor, ClickEvent, Color, HoverEvent, Style, TextComponent, TextComponentBase,
    TextContent,
};

verus! {

/// Tag identifiers of the layout: byte, int, string, list, compound.
pub open spec fn spec_tag_byte() -> u8 {
    1
}

pub open spec fn spec_tag_int() -> u8 {
    3
}

pub open spec fn spec_tag_string() -> u8 {
    8
}

pub open spec fn spec_tag_list() -> u8 {
    9
}

pub open spec fn spec_tag_compound() -> u8 {
    10
}

/// Big-endian 32-bit encoding of a count, wrapping past the field width.
pub open spec fn spec_be32(n: nat) -> Seq<u8> {
    seq![
        (n / 0x100_0000 % 0x100) as u8,
        (n / 0x1_0000 % 0x100) as u8,
        (n / 0x100 % 0x100) as u8,
        (n % 0x100) as u8,
    ]
}

/// A length-prefixed string: big-endian 16-bit byte length, then the UTF-8
/// bytes. Texts stay far below the 16-bit length limit of the wire format;
/// a longer one would wrap its prefix.
pub open spec fn spec_nbt_string(s: Seq<char>) -> Seq<u8> {
    let b = encode_utf8(s);
    seq![(b.len() / 0x100 % 0x100) as u8, (b.len() % 0x100) as u8] + b
}

/// A named string field.
pub open spec fn spec_string_field(name: Seq<char>, value: Seq<char>) -> Seq<u8> {
    seq![spec_tag_string()] + spec_nbt_string(name) + spec_nbt_string(value)
}

/// A named boolean flag, written as a byte.
pub open spec fn spec_byte_field(name: Seq<char>, value: bool) -> Seq<u8> {
    seq![spec_tag_byte()] + spec_nbt_string(name) + seq![
        if value {
            1u8
        } else {
            0u8
        },
    ]
}

/// A named 32-bit integer field.
pub open spec fn spec_int_field(name: Seq<char>, value: nat) -> Seq<u8> {
    seq![spec_tag_int()] + spec_nbt_string(name) + spec_be32(value)
}

/// The header of a named list of compounds.
pub open spec fn spec_list_header(name: Seq<char>, count: nat) -> Seq<u8> {
    seq![spec_tag_list()] + spec_nbt_string(name) + seq![spec_tag_compound()] + spec_be32(count)
}

/// The color value string: a color name, or the hex form of a 24-bit value.
pub open spec fn spec_color_value(c: Color) -> Seq<char> {
    match c {
        Color::Named(named) => named.spec_name(),
        Color::Rgb(rgb) => seq!['#'] + spec_hex2(rgb.red as nat) + spec_hex2(rgb.green as nat)
            + spec_hex2(rgb.blue as nat),
    }
}

/// Two uppercase hex digits of a byte.
pub open spec fn spec_hex2(v: nat) -> Seq<char> {
    seq![spec_hex_digit(v / 16 % 16), spec_hex_digit(v % 16)]
}

pub open spec fn spec_hex_digit(d: nat) -> char {
    if d == 0 {
        '0'
    } else if d == 1 {
        '1'
    } else if d == 2 {
        '2'
    } else if d == 3 {
        '3'
    } else if d == 4 {
        '4'
    } else if d == 5 {
        '5'
    } else if d == 6 {
        '6'
    } else if d == 7 {
        '7'
    } else if d == 8 {
        '8'
    } else if d == 9 {
        '9'
    } else if d == 10 {
        'A'
    } else if d == 11 {
        'B'
    } else if d == 12 {
        'C'
    } else if d == 13 {
        'D'
    } else if d == 14 {
        'E'
    } else {
        'F'
    }
}

/// The field bytes of a component body, ending with the compound-end byte:
/// content fields, style fields, then the children list.
pub open spec fn spec_nbt_body(base: TextComponentBase) -> Seq<u8>
    decreases base, 3int,
{
    spec_nbt_content(base) + spec_nbt_style(base.style) + (if base.extra@.len() > 0 {
        spec_list_header("extra"@, base.extra@.len()) + spec_nbt_bodies(base.extra@, 0)
    } else {
        Seq::empty()
    }) + seq![0u8]
}

/// The content fields of a component.
pub open spec fn spec_nbt_content(base: TextComponentBase) -> Seq<u8>
    decreases base, 2int,
{
    match base.content {
        TextContent::Text { text } => spec_string_field("text"@, text@),
        TextContent::Translate { translate, with } => spec_string_field(
            "translate"@,
            translate@,
        ) + if with@.len() > 0 {
            spec_list_header("with"@, with@.len()) + spec_nbt_bodies(with@, 0)
        } else {
            Seq::empty()
        },
        TextContent::EntityNames { selector, separator } => spec_string_field(
            "selector"@,
            selector@,
        ) + match separator {
            Option::Some(sep) => spec_string_field("separator"@, sep@),
            Option::None => Seq::empty(),
        },
        TextContent::Keybind { keybind } => spec_string_field("keybind"@, keybind@),
    }
}

/// The style fields, in declaration order; unset fields write nothing.
pub open spec fn spec_nbt_style(style: Style) -> Seq<u8>
    decreases style, 2int,
{
    spec_nbt_style_front(style) + spec_nbt_style_back(style)
}

/// The optional color segment.
pub open spec fn spec_color_segment(color: Option<Color>) -> Seq<u8> {
    match color {
        Option::Some(c) => spec_string_field("color"@, spec_color_value(c)),
        Option::None => Seq::empty(),
    }
}

/// The optional flag segment.
pub open spec fn spec_flag_segment(name: Seq<char>, flag: Option<bool>) -> Seq<u8> {
    match flag {
        Option::Some(v) => spec_byte_field(name, v),
        Option::None => Seq::empty(),
    }
}

/// The decoration fields: color and the five flags.
pub open spec fn spec_nbt_style_front(style: Style) -> Seq<u8> {
    spec_color_segment(style.color) + spec_flag_segment("bold"@, style.bold) + spec_flag_segment(
        "italic"@,
        style.italic,
    ) + spec_flag_segment("underlined"@, style.underlined) + spec_flag_segment(
        "strikethrough"@,
        style.strikethrough,
    ) + spec_flag_segment("obfuscated"@, style.obfuscated)
}

/// The interaction fields: insertion, events, font, shadow.
pub open spec fn spec_nbt_style_back(style: Style) -> Seq<u8>
    decreases style, 1int,
{
    (match style.insertion {
        Option::Some(text) => spec_string_field("insertion"@, text@),
        Option::None => Seq::empty(),
    }) + (match style.click_event {
        Option::Some(event) => seq![spec_tag_compound()] + spec_nbt_string("click_event"@)
            + spec_nbt_click(event) + seq![0u8],
        Option::None => Seq::empty(),
    }) + (match style.hover_event {
        Option::Some(event) => seq![spec_tag_compound()] + spec_nbt_string("hover_event"@)
            + spec_nbt_hover(event) + seq![0u8],
        Option::None => Seq::empty(),
    }) + (match style.font {
        Option::Some(text) => spec_string_field("font"@, text@),
        Option::None => Seq::empty(),
    }) + (match style.shadow_color {
        Option::Some(c) => spec_int_field(
            "shadow_color"@,
            (c.alpha as nat) * 0x100_0000 + (c.red as nat) * 0x1_0000 + (c.green as nat) * 0x100
                + (c.blue as nat),
        ),
        Option::None => Seq::empty(),
    })
}

/// The fields of a click event: its action name and its one argument.
pub open spec fn spec_nbt_click(event: ClickEvent) -> Seq<u8> {
    match event {
        ClickEvent::OpenUrl { url } => spec_string_field("action"@, "open_url"@)
            + spec_string_field("url"@, url@),
        ClickEvent::RunCommand { command } => spec_string_field("action"@, "run_command"@)
            + spec_string_field("command"@, command@),
        ClickEvent::SuggestCommand { command } => spec_string_field(
            "action"@,
            "suggest_command"@,
        ) + spec_string_field("command"@, command@),
        ClickEvent::CopyToClipboard { value } => spec_string_field(
            "action"@,
            "copy_to_clipboard"@,
        ) + spec_string_field("value"@, value@),
    }
}

/// The fields of a hover event.
pub open spec fn spec_nbt_hover(event: HoverEvent) -> Seq<u8>
    decreases event, 1int,
{
    match event {
        HoverEvent::ShowText { value } => spec_string_field("action"@, "show_text"@)
            + spec_list_header("value"@, value@.len()) + spec_nbt_bodies(value@, 0),
        HoverEvent::ShowItem { id, count } => spec_string_field("action"@, "show_item"@)
            + spec_string_field("id"@, id@) + match count {
            Option::Some(n) => spec_int_field("count"@, spec_u32_of_i32(n)),
            Option::None => Seq::empty(),
        },
        HoverEvent::ShowEntity { id, uuid, name } => spec_string_field("action"@, "show_entity"@)
            + spec_string_field("id"@, id@) + spec_string_field("uuid"@, uuid@) + match name {
            Option::Some(components) => spec_list_header("name"@, components@.len())
                + spec_nbt_bodies(components@, 0),
            Option::None => Seq::empty(),
        },
    }
}

/// The two's-complement 32-bit word of a count.
pub open spec fn spec_u32_of_i32(v: i32) -> nat {
    if v >= 0 {
        v as nat
    } else {
        (v + 0x1_0000_0000) as nat
    }
}

/// The concatenated bodies of the components from position `i` on.
pub open spec fn spec_nbt_bodies(components: Seq<TextComponentBase>, i: int) -> Seq<u8>
    decreases components, components.len() - i,
{
    if i < 0 || i >= components.len() {
        Seq::empty()
    } else {
        spec_nbt_body(components[i]) + spec_nbt_bodies(components, i + 1)
    }
}

/// The encoding of a whole component: the unnamed root compound.
pub open spec fn spec_nbt_component(component: TextComponent) -> Seq<u8> {
    seq![spec_tag_compound()] + spec_nbt_body(component.0)
}

/// Appends a slice.
fn push_bytes(out: &mut Vec<u8>, bytes: &[u8])
    ensures
        final(out)@ == old(out)@ + bytes@,
{
    let n: usize = bytes.len();
    let mut i: usize = 0;
    while i < n
        invariant
            i <= n,
            n == bytes@.len(),
            out@ == old(out)@ + bytes@.take(i as int),
        decreases n - i,
    {
        out.push(bytes[i]);
        proof {
            assert(old(out)@ + bytes@.take(i + 1) =~= (old(out)@ + bytes@.take(i as int)).push(
                bytes@[i as int],
            ));
        }
        i = i + 1;
    }
    proof {
        assert(bytes@.take(n as int) =~= bytes@);
    }
}

/// Appends a length-prefixed string.
fn push_nbt_string(out: &mut Vec<u8>, s: &str)
    ensures
        final(out)@ == old(out)@ + spec_nbt_string(s@),
{
    let bytes: &[u8] = s.as_bytes();
    let n: usize = bytes.len();
    out.push((n / 0x100 % 0x100) as u8);
    out.push((n % 0x100) as u8);
    push_bytes(out, bytes);
    proof {
        assert(out@ =~= old(out)@ + spec_nbt_string(s@));
    }
}

/// Appends a named string field.
fn push_string_field(out: &mut Vec<u8>, name: &str, value: &str)
    ensures
        final(out)@ == old(out)@ + spec_string_field(name@, value@),
{
    out.push(8);
    push_nbt_string(out, name);
    push_nbt_string(out, value);
    proof {
        assert(out@ =~= old(out)@ + spec_string_field(name@, value@));
    }
}

/// Appends a named boolean flag.
fn push_byte_field(out: &mut Vec<u8>, name: &str, value: bool)
    ensures
        final(out)@ == old(out)@ + spec_byte_field(name@, value),
{
    out.push(1);
    push_nbt_string(out, name);
    out.push(
        if value {
            1
        } else {
            0
        },
    );
    proof {
        assert(out@ =~= old(out)@ + spec_byte_field(name@, value));
    }
}

/// Appends a big-endian count.
fn push_be32(out: &mut Vec<u8>, n: usize)
    ensures
        final(out)@ == old(out)@ + spec_be32(n as nat),
{
    out.push((n / 0x100_0000 % 0x100) as u8);
    out.push((n / 0x1_0000 % 0x100) as u8);
    out.push((n / 0x100 % 0x100) as u8);
    out.push((n % 0x100) as u8);
    proof {
        assert(out@ =~= old(out)@ + spec_be32(n as nat));
    }
}

/// Appends a named integer field.
fn push_int_field(out: &mut Vec<u8>, name: &str, value: usize)
    ensures
        final(out)@ == old(out)@ + spec_int_field(name@, value as nat),
{
    out.push(3);
    push_nbt_string(out, name);
    push_be32(out, value);
    proof {
        assert(out@ =~= old(out)@ + spec_int_field(name@, value as nat));
    }
}

/// Appends a named list-of-compounds header.
fn push_list_header(out: &mut Vec<u8>, name: &str, count: usize)
    ensures
        final(out)@ == old(out)@ + spec_list_header(name@, count as nat),
{
    out.push(9);
    push_nbt_string(out, name);
    out.push(10);
    push_be32(out, count);
    proof {
        assert(out@ =~= old(out)@ + spec_list_header(name@, count as nat));
    }
}

/// Appends the hex color form.
fn push_color_value(out: &mut String, c: Color)
    ensures
        final(out)@ == old(out)@ + spec_color_value(c),
{
    match c {
        Color::Named(named) => {
            vstd::string::StringExecFns::append(out, named.name());
        },
        Color::Rgb(rgb) => {
            crate::strutil::push_char(out, '#');
            push_hex2(out, rgb.red);
            push_hex2(out, rgb.green);
            push_hex2(out, rgb.blue);
            proof {
                assert(final(out)@ =~= old(out)@ + spec_color_value(c));
            }
        },
    }
}

fn push_hex2(out: &mut String, v: u8)
    ensures
        final(out)@ == old(out)@ + spec_hex2(v as nat),
{
    crate::strutil::push_char(out, hex_digit((v / 16) as u32));
    crate::strutil::push_char(out, hex_digit((v % 16) as u32));
    proof {
        assert(final(out)@ =~= old(out)@ + spec_hex2(v as nat));
    }
}

fn hex_digit(d: u32) -> (r: char)
    requires
        d < 16,
    ensures
        r == spec_hex_digit(d as nat),
{
    if d < 10 {
        crate::strutil::digit_char(d)
    } else if d == 10 {
        'A'
    } else if d == 11 {
        'B'
    } else if d == 12 {
        'C'
    } else if d == 13 {
        'D'
    } else if d == 14 {
        'E'
    } else {
        'F'
    }
}

/// Writes the body of one component: content, style, children, end byte.
#[verifier::loop_isolation(false)]
#[verifier::rlimit(100)]
fn write_body(out: &mut Vec<u8>, base: &TextComponentBase)
    ensures
        final(out)@ == old(out)@ + spec_nbt_body(*base),
    decreases *base, 4int,
{
    let ghost start = out@;
    match &base.content {
        TextContent::Text { text } => {
            push_string_field(out, "text", text.as_str());
        },
        TextContent::Translate { translate, with } => {
            push_string_field(out, "translate", translate.as_str());
            if with.len() > 0 {
                push_list_header(out, "with", with.len());
                write_bodies(out, base, with);
            }
        },
        TextContent::EntityNames { selector, separator } => {
            push_string_field(out, "selector", selector.as_str());
            match separator {
                Option::Some(sep) => {
                    push_string_field(out, "separator", sep.as_str());
                },
                Option::None => {},
            }
        },
        TextContent::Keybind { keybind } => {
            push_string_field(out, "keybind", keybind.as_str());
        },
    }
    proof {
        assert(out@ =~= start + spec_nbt_content(*base));
    }
    let ghost after_content = out@;
    write_style(out, base);
    proof {
        assert(out@ == after_content + spec_nbt_style(base.style));
    }
    let ghost after_style = out@;
    if base.extra.len() > 0 {
        push_list_header(out, "extra", base.extra.len());
        write_bodies(out, base, &base.extra);
    }
    out.push(0);
    proof {
        assert(out@ =~= start + spec_nbt_body(*base));
    }
}

/// Writes the bodies of a list of components in order. The list is part of
/// `parent`, which carries the termination measure.
#[verifier::loop_isolation(false)]
fn write_bodies(out: &mut Vec<u8>, parent: &TextComponentBase, components: &Vec<TextComponentBase>)
    requires
        decreases_to!(*parent => components@),
    ensures
        final(out)@ == old(out)@ + spec_nbt_bodies(components@, 0),
    decreases *parent, 0int,
{
    let ghost start = out@;
    let n: usize = components.len();
    let mut i: usize = 0;
    while i < n
        invariant
            i <= n,
            n == components@.len(),
            out@ + spec_nbt_bodies(components@, i as int) == start + spec_nbt_bodies(
                components@,
                0,
            ),
        decreases n - i,
    {
        proof {
            assert(decreases_to!(components@ => components@[i as int]));
            assert(decreases_to!(*parent => components@[i as int]));
        }
        write_body(out, &components[i]);
        i = i + 1;
    }
    proof {
        assert(out@ =~= out@ + spec_nbt_bodies(components@, n as int));
    }
}

/// Writes the style fields.
fn write_style(out: &mut Vec<u8>, base: &TextComponentBase)
    ensures
        final(out)@ == old(out)@ + spec_nbt_style(base.style),
    decreases *base, 3int,
{
    let ghost start = out@;
    write_style_front(out, &base.style);
    write_style_back(out, base);
    proof {
        assert(out@ =~= start + spec_nbt_style(base.style));
    }
}

/// Writes the decoration fields.
#[verifier::rlimit(100)]
fn write_style_front(out: &mut Vec<u8>, style: &Style)
    ensures
        final(out)@ == old(out)@ + spec_nbt_style_front(*style),
{
    let ghost start = out@;
    write_opt_color(out, &style.color);
    write_opt_flag(out, "bold", &style.bold);
    write_opt_flag(out, "italic", &style.italic);
    write_opt_flag(out, "underlined", &style.underlined);
    write_opt_flag(out, "strikethrough", &style.strikethrough);
    write_opt_flag(out, "obfuscated", &style.obfuscated);
    proof {
        assert(out@ =~= start + spec_nbt_style_front(*style));
    }
}

/// Writes the interaction fields.
#[verifier::rlimit(100)]
fn write_style_back(out: &mut Vec<u8>, base: &TextComponentBase)
    ensures
        final(out)@ == old(out)@ + spec_nbt_style_back(base.style),
    decreases *base, 2int,
{
    let ghost start = out@;
    let style: &Style = &base.style;
    write_opt_string(out, "insertion", &style.insertion);
    write_opt_click(out, &style.click_event);
    proof {
        assert(decreases_to!(*base => style.hover_event));
    }
    write_opt_hover(out, base, &style.hover_event);
    write_opt_string(out, "font", &style.font);
    write_opt_shadow(out, &style.shadow_color);
    proof {
        assert(out@ =~= start + spec_nbt_style_back(base.style));
    }
}


/// Writes the optional color field.
fn write_opt_color(out: &mut Vec<u8>, color: &Option<Color>)
    ensures
        final(out)@ == old(out)@ + spec_color_segment(*color),
{
    match color {
        Option::Some(c) => {
            let mut value: String = String::new();
            push_color_value(&mut value, *c);
            push_string_field(out, "color", value.as_str());
        },
        Option::None => {},
    }
}

/// Writes an optional boolean flag field.
fn write_opt_flag(out: &mut Vec<u8>, name: &str, flag: &Option<bool>)
    ensures
        final(out)@ == old(out)@ + spec_flag_segment(name@, *flag),
{
    match flag {
        Option::Some(v) => push_byte_field(out, name, *v),
        Option::None => {},
    }
}

/// Writes an optional string field.
fn write_opt_string(out: &mut Vec<u8>, name: &str, value: &Option<String>)
    ensures
        final(out)@ == old(out)@ + (match *value {
            Option::Some(text) => spec_string_field(name@, text@),
            Option::None => Seq::empty(),
        }),
{
    match value {
        Option::Some(text) => push_string_field(out, name, text.as_str()),
        Option::None => {},
    }
}

/// Writes the optional click-event compound.
fn write_opt_click(out: &mut Vec<u8>, event: &Option<ClickEvent>)
    ensures
        final(out)@ == old(out)@ + (match *event {
            Option::Some(e) => seq![spec_tag_compound()] + spec_nbt_string("click_event"@)
                + spec_nbt_click(e) + seq![0u8],
            Option::None => Seq::empty(),
        }),
{
    let ghost start = out@;
    match event {
        Option::Some(e) => {
            out.push(10);
            push_nbt_string(out, "click_event");
            match e {
                ClickEvent::OpenUrl { url } => {
                    push_string_field(out, "action", "open_url");
                    push_string_field(out, "url", url.as_str());
                },
                ClickEvent::RunCommand { command } => {
                    push_string_field(out, "action", "run_command");
                    push_string_field(out, "command", command.as_str());
                },
                ClickEvent::SuggestCommand { command } => {
                    push_string_field(out, "action", "suggest_command");
                    push_string_field(out, "command", command.as_str());
                },
                ClickEvent::CopyToClipboard { value } => {
                    push_string_field(out, "action", "copy_to_clipboard");
                    push_string_field(out, "value", value.as_str());
                },
            }
            out.push(0);
            proof {
                assert(out@ =~= start + (seq![spec_tag_compound()] + spec_nbt_string(
                    "click_event"@,
                ) + spec_nbt_click(*e) + seq![0u8]));
            }
        },
        Option::None => {},
    }
}

/// Writes the optional hover-event compound.
#[verifier::rlimit(100)]
fn write_opt_hover(out: &mut Vec<u8>, base: &TextComponentBase, event: &Option<HoverEvent>)
    requires
        decreases_to!(*base => *event),
    ensures
        final(out)@ == old(out)@ + (match *event {
            Option::Some(e) => seq![spec_tag_compound()] + spec_nbt_string("hover_event"@)
                + spec_nbt_hover(e) + seq![0u8],
            Option::None => Seq::empty(),
        }),
    decreases *base, 1int,
{
    let ghost start = out@;
    match event {
        Option::Some(e) => {
            out.push(10);
            push_nbt_string(out, "hover_event");
            match e {
                HoverEvent::ShowText { value } => {
                    push_string_field(out, "action", "show_text");
                    push_list_header(out, "value", value.len());
                    proof {
                        assert(decreases_to!(*event => *e));
                        assert(decreases_to!(*base => value@));
                    }
                    write_bodies(out, base, value);
                },
                HoverEvent::ShowItem { id, count } => {
                    push_string_field(out, "action", "show_item");
                    push_string_field(out, "id", id.as_str());
                    match count {
                        Option::Some(n) => {
                            let wide: usize = if *n >= 0 {
                                *n as usize
                            } else {
                                (*n as i64 + 0x1_0000_0000i64) as usize
                            };
                            push_int_field(out, "count", wide);
                        },
                        Option::None => {},
                    }
                },
                HoverEvent::ShowEntity { id, uuid, name } => {
                    push_string_field(out, "action", "show_entity");
                    push_string_field(out, "id", id.as_str());
                    push_string_field(out, "uuid", uuid.as_str());
                    match name {
                        Option::Some(components) => {
                            push_list_header(out, "name", components.len());
                            proof {
                                assert(decreases_to!(*base => components@));
                            }
                            write_bodies(out, base, components);
                        },
                        Option::None => {},
                    }
                },
            }
            out.push(0);
            proof {
                assert(out@ =~= start + (seq![spec_tag_compound()] + spec_nbt_string(
                    "hover_event"@,
                ) + spec_nbt_hover(*e) + seq![0u8]));
            }
        },
        Option::None => {},
    }
}

/// Writes the optional shadow-color field.
fn write_opt_shadow(out: &mut Vec<u8>, color: &Option<ARGBColor>)
    ensures
        final(out)@ == old(out)@ + (match *color {
            Option::Some(c) => spec_int_field(
                "shadow_color"@,
                (c.alpha as nat) * 0x100_0000 + (c.red as nat) * 0x1_0000 + (c.green as nat)
                    * 0x100 + (c.blue as nat),
            ),
            Option::None => Seq::empty(),
        }),
{
    match color {
        Option::Some(c) => {
            let packed: usize = (c.alpha as usize) * 0x100_0000 + (c.red as usize) * 0x1_0000 + (
            c.green as usize) * 0x100 + (c.blue as usize);
            push_int_field(out, "shadow_color", packed);
        },
        Option::None => {},
    }
}

impl TextComponent {
    /// Encodes the component for the wire: the unnamed root compound of
    /// the layout above.
    pub fn encode(&self) -> (r: Vec<u8>)
        ensures
            r@ == spec_nbt_component(*self),
    {
        let mut out: Vec<u8> = Vec::new();
        out.push(10);
        write_body(&mut out, &self.0);
        proof {
            assert(out@ =~= spec_nbt_component(*self));
        }
        out
    }
}

} // verus!
