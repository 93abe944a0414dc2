//! The default styles written out, and the proof that the default
//! configuration describes exactly these.

use vstd::prelude::*;
use crate::indicator::Indicator;
use crate::laws::{
    entry,
    law_config_concat,
    law_config_keeps_others,
    lemma_entry_parts,
    lemma_key_text,
    lemma_single_entry,
    lemma_style_text,
    names,
    suffix_key,
    unbroken,
};
use crate::registry::{LsColorsView, LS_COLORS_DEFAULT};
use crate::style::{sgr_codes, Color, FontStyle, Style};
use crate::text::{
    all_digits,
    byte_of,
    decimal,
    is_digit,
    lemma_split_concat,
    lemma_split_single,
    lower,
    lowercase,
    split,
};

verus! {

/// The plain font in the given color.
pub open spec fn colored(foreground: Color) -> Style {
    Style { foreground: Some(foreground), ..Style::plain() }
}

/// The bold font in the given color.
pub open spec fn bold(foreground: Color) -> Style {
    Style { font_style: FontStyle::of(true, false, false), ..colored(foreground) }
}

/// The plain font in the first color on a background of the second.
pub open spec fn on(foreground: Color, background: Color) -> Style {
    Style { foreground: Some(foreground), background: Some(background), ..Style::plain() }
}

/// The bold font in the first color on a background of the second.
pub open spec fn bold_on(foreground: Color, background: Color) -> Style {
    Style { background: Some(background), ..bold(foreground) }
}

/// The default style of each indicator that has one.
pub open spec fn default_indicators() -> Map<Indicator, Style> {
    Map::empty()
        .insert(Indicator::Reset, Style::plain())
        .insert(Indicator::Directory, bold(Color::Blue))
        .insert(Indicator::SymbolicLink, bold(Color::Cyan))
        .insert(Indicator::MultipleHardLinks, Style::plain())
        .insert(Indicator::FIFO, on(Color::Yellow, Color::Black))
        .insert(Indicator::Socket, bold(Color::Purple))
        .insert(Indicator::Door, bold(Color::Purple))
        .insert(Indicator::BlockDevice, bold_on(Color::Yellow, Color::Black))
        .insert(Indicator::CharacterDevice, bold_on(Color::Yellow, Color::Black))
        .insert(Indicator::OrphanedSymbolicLink, bold_on(Color::Red, Color::Black))
        .insert(Indicator::MissingFile, Style::plain())
        .insert(Indicator::Setuid, on(Color::White, Color::Red))
        .insert(Indicator::Setgid, on(Color::Black, Color::Yellow))
        .insert(Indicator::Capabilities, on(Color::Black, Color::Red))
        .insert(Indicator::StickyAndOtherWritable, on(Color::Black, Color::Green))
        .insert(Indicator::OtherWritable, on(Color::Blue, Color::Green))
        .insert(Indicator::Sticky, on(Color::White, Color::Blue))
        .insert(Indicator::ExecutableFile, bold(Color::Green))
}

/// The suffixes of archives and of compressed files.
pub open spec fn archive_suffixes() -> Seq<Seq<char>> {
    seq![
        ".tar"@, ".tgz"@, ".arc"@, ".arj"@, ".taz"@, ".lha"@, ".lz4"@, ".lzh"@,
        ".lzma"@, ".tlz"@, ".txz"@, ".tzo"@, ".t7z"@, ".zip"@, ".z"@, ".dz"@, ".gz"@,
        ".lrz"@, ".lz"@, ".lzo"@, ".xz"@, ".zst"@, ".tzst"@, ".bz2"@, ".bz"@, ".tbz"@,
        ".tbz2"@, ".tz"@, ".deb"@, ".rpm"@, ".jar"@, ".war"@, ".ear"@, ".sar"@, ".rar"@,
        ".alz"@, ".ace"@, ".zoo"@, ".cpio"@, ".7z"@, ".rz"@, ".cab"@, ".wim"@, ".swm"@,
        ".dwm"@, ".esd"@,
    ]
}

/// The suffixes of images and of videos.
pub open spec fn picture_suffixes() -> Seq<Seq<char>> {
    seq![
        ".jpg"@, ".jpeg"@, ".mjpg"@, ".mjpeg"@, ".gif"@, ".bmp"@, ".pbm"@, ".pgm"@,
        ".ppm"@, ".tga"@, ".xbm"@, ".xpm"@, ".tif"@, ".tiff"@, ".png"@, ".svg"@,
        ".svgz"@, ".mng"@, ".pcx"@, ".mov"@, ".mpg"@, ".mpeg"@, ".m2v"@, ".mkv"@,
        ".webm"@, ".ogm"@, ".mp4"@, ".m4v"@, ".mp4v"@, ".vob"@, ".qt"@, ".nuv"@,
        ".wmv"@, ".asf"@, ".rm"@, ".rmvb"@, ".flc"@, ".avi"@, ".fli"@, ".flv"@, ".gl"@,
        ".dl"@, ".xcf"@, ".xwd"@, ".yuv"@, ".cgm"@, ".emf"@, ".ogv"@, ".ogx"@,
    ]
}

/// The suffixes of audio files.
pub open spec fn sound_suffixes() -> Seq<Seq<char>> {
    seq![
        ".aac"@, ".au"@, ".flac"@, ".m4a"@, ".mid"@, ".midi"@, ".mka"@, ".mp3"@,
        ".mpc"@, ".ogg"@, ".ra"@, ".wav"@, ".oga"@, ".opus"@, ".spx"@, ".xspf"@,
    ]
}

/// The rules that give `style` to each of `suffixes`, in order.
pub open spec fn rules(suffixes: Seq<Seq<char>>, style: Style) -> Seq<(Seq<char>, Style)> {
    suffixes.map_values(|suffix: Seq<char>| (suffix, style))
}

/// The default suffix rules, in order: archives are bold red, images and
/// videos bold purple, audio files cyan.
pub open spec fn default_suffixes() -> Seq<(Seq<char>, Style)> {
    rules(archive_suffixes(), bold(Color::Red)) + rules(picture_suffixes(), bold(Color::Purple))
        + rules(sound_suffixes(), colored(Color::Cyan))
}

/// The first `n` characters of `piece` stand in `text` from place `at` on.
spec fn stands(text: Seq<char>, at: int, piece: Seq<char>, n: nat) -> bool
    decreases n,
{
    n == 0 || (stands(text, at, piece, (n - 1) as nat) && text[at + n - 1] == piece[n - 1])
}

/// Among the first `n` characters of `s` there is no colon, no equals sign and
/// no capital letter.
spec fn clean(s: Seq<char>, n: nat) -> bool
    decreases n,
{
    n == 0 || (clean(s, (n - 1) as nat) && s[n - 1] != ':' && s[n - 1] != '=' && lower(s[n - 1])
        == s[n - 1])
}

/// The entry `key=value` and a colon behind it stand in `text` from place
/// `at` up to place `end`.
#[verifier::opaque]
spec fn entry_at(text: Seq<char>, at: int, key: Seq<char>, value: Seq<char>, end: int) -> bool {
    &&& 0 <= at
    &&& end == at + key.len() + value.len() + 2
    &&& end <= text.len()
    &&& stands(text, at, key, key.len())
    &&& text[at + key.len()] == '='
    &&& stands(text, at + key.len() + 1, value, value.len())
    &&& text[end - 1] == ':'
}

/// The rule `*suffix=value` and a colon behind it stand in `text` from place
/// `at` up to place `end`, and the suffix is clean.
#[verifier::opaque]
spec fn rule_at(text: Seq<char>, at: int, suffix: Seq<char>, value: Seq<char>, end: int) -> bool {
    &&& clean(suffix, suffix.len())
    &&& entry_at(text, at, suffix_key(suffix), value, end)
}

/// The value describes the style.
#[verifier::opaque]
spec fn describes(value: Seq<char>, style: Style) -> bool {
    Style::of_ansi_sequence(value) == Some(style)
}

/// The registry after the configuration that stands in `text` from place `at`
/// on.
#[verifier::opaque]
spec fn continued(registry: LsColorsView, text: Seq<char>, at: int) -> LsColorsView {
    registry.with_config(text.skip(at))
}

/// What stands in a text is a piece of it.
proof fn lemma_stands(text: Seq<char>, at: int, piece: Seq<char>, n: nat)
    requires
        0 <= at,
        at + n <= text.len(),
        n <= piece.len(),
        stands(text, at, piece, n),
    ensures
        text.subrange(at, at + n) == piece.take(n as int),
    decreases n,
{
    if n > 0 {
        lemma_stands(text, at, piece, (n - 1) as nat);
        assert(text.subrange(at, at + n) =~= text.subrange(at, at + n - 1).push(
            text[at + n - 1],
        ));
        assert(piece.take(n as int) =~= piece.take(n - 1).push(piece[n - 1]));
    } else {
        assert(text.subrange(at, at + n) =~= piece.take(n as int));
    }
}

/// A clean text is unbroken and in lowercase.
proof fn lemma_clean(s: Seq<char>, n: nat)
    requires
        n <= s.len(),
        clean(s, n),
    ensures
        unbroken(s.take(n as int)),
        lowercase(s.take(n as int)) == s.take(n as int),
    decreases n,
{
    if n > 0 {
        lemma_clean(s, (n - 1) as nat);
        assert(s.take(n as int) =~= s.take(n - 1).push(s[n - 1]));
        assert(lowercase(s.take(n as int)) =~= lowercase(s.take(n - 1)).push(lower(s[n - 1])));
    } else {
        assert(lowercase(s.take(n as int)) =~= s.take(n as int));
    }
}

/// A configuration that begins with an entry and a colon applies the entry,
/// then what stands behind the colon.
proof fn lemma_entry_at(
    registry: LsColorsView,
    text: Seq<char>,
    at: int,
    key: Seq<char>,
    value: Seq<char>,
    end: int,
)
    requires
        entry_at(text, at, key, value, end),
        unbroken(key),
        unbroken(value),
    ensures
        registry.with_config(text.skip(at)) == registry.with_entry(entry(key, value)).with_config(
            text.skip(end),
        ),
{
    reveal(entry_at);
    let first = entry(key, value);
    let rest = text.skip(end);
    lemma_stands(text, at, key, key.len());
    lemma_stands(text, at + key.len() + 1, value, value.len());
    assert(key.take(key.len() as int) =~= key);
    assert(value.take(value.len() as int) =~= value);
    let found = text.subrange(at, at + key.len()) + seq!['='] + text.subrange(
        at + key.len() + 1,
        at + key.len() + 1 + value.len(),
    );
    assert(text.skip(at) =~= found + seq![':'] + rest);
    law_config_concat(registry, first, rest);
    lemma_entry_parts(key, value);
    lemma_single_entry(registry, first);
}

/// An entry with the key of an indicator and a value that describes a style
/// gives the style to the indicator.
proof fn indicator_at(
    registry: LsColorsView,
    text: Seq<char>,
    at: int,
    indicator: Indicator,
    value: Seq<char>,
    style: Style,
    end: int,
) -> (next: LsColorsView)
    requires
        entry_at(text, at, indicator.key(), value, end),
        describes(value, style),
    ensures
        next == registry.with_indicator(indicator, style),
        continued(registry, text, at) == continued(next, text, end),
{
    reveal(describes);
    reveal(continued);
    lemma_key_text(indicator);
    lemma_style_text(value);
    lemma_entry_at(registry, text, at, indicator.key(), value, end);
    lemma_entry_parts(indicator.key(), value);
    indicator.lemma_key_names();
    registry.with_indicator(indicator, style)
}

/// An entry for the clean suffix with number `k` among `suffixes`, with a
/// value that describes a style, adds a rule that gives the style to the
/// suffix, behind the rules for the suffixes before it.
proof fn suffix_at(
    registry: LsColorsView,
    text: Seq<char>,
    at: int,
    suffixes: Seq<Seq<char>>,
    k: int,
    value: Seq<char>,
    style: Style,
    end: int,
)
    requires
        0 <= k < suffixes.len(),
        rule_at(text, at, suffixes[k], value, end),
        describes(value, style),
    ensures
        continued(registry.with_rules(rules(suffixes.take(k), style)), text, at) == continued(
            registry.with_rules(rules(suffixes.take(k + 1), style)),
            text,
            end,
        ),
{
    reveal(rule_at);
    reveal(describes);
    reveal(continued);
    let suffix = suffixes[k];
    let key = suffix_key(suffix);
    let before = registry.with_rules(rules(suffixes.take(k), style));
    lemma_clean(suffix, suffix.len());
    assert(suffix.take(suffix.len() as int) =~= suffix);
    lemma_style_text(value);
    lemma_entry_at(before, text, at, key, value, end);
    lemma_entry_parts(key, value);
    assert(key.drop_first() =~= suffix);
    assert(before.with_rule(suffix, style).suffixes =~= registry.suffixes + rules(
        suffixes.take(k + 1),
        style,
    ));
}

/// The rules for the suffixes of a table, from the first to the last.
proof fn lemma_suffixes_at(
    registry: LsColorsView,
    text: Seq<char>,
    at: int,
    suffixes: Seq<Seq<char>>,
    style: Style,
    end: int,
)
    requires
        continued(registry.with_rules(rules(suffixes.take(0), style)), text, at) == continued(
            registry.with_rules(rules(suffixes.take(suffixes.len() as int), style)),
            text,
            end,
        ),
    ensures
        continued(registry, text, at) == continued(
            registry.with_rules(rules(suffixes, style)),
            text,
            end,
        ),
{
    assert(suffixes.take(suffixes.len() as int) =~= suffixes);
    assert(registry.with_rules(rules(suffixes.take(0), style)).suffixes =~= registry.suffixes);
}

/// At the end of a text nothing is left to apply.
proof fn lemma_continued_end(registry: LsColorsView, text: Seq<char>)
    ensures
        continued(registry, text, text.len() as int) == registry,
{
    reveal(continued);
    assert(text.skip(text.len() as int) =~= Seq::empty());
    let nothing = Seq::<char>::empty();
    lemma_split_single(nothing, ':');
    lemma_split_single(nothing, '=');
    lemma_single_entry(registry, nothing);
}

/// One or two decimal digits.
spec fn short_number(s: Seq<char>) -> bool {
    0 < s.len() <= 2 && all_digits(s)
}

/// One or two digits spell a byte.
proof fn lemma_short_number(s: Seq<char>)
    requires
        short_number(s),
    ensures
        byte_of(s) == Some(decimal(s) as u8),
        0 <= decimal(s) <= 99,
        forall|j: int| 0 <= j < s.len() ==> s[j] != ';',
{
    reveal_with_fuel(decimal, 3);
    assert(is_digit(s[0]));
    if s.len() == 2 {
        assert(is_digit(s[1]));
        assert(s.drop_last().len() == 1);
        assert(s.drop_last().drop_last().len() == 0);
    } else {
        assert(s.drop_last().len() == 0);
    }
}

/// A code that changes the style by itself.
spec fn simple(code: u8) -> bool {
    code <= 1 || code == 3 || code == 4 || 30 <= code <= 37 || 39 <= code <= 47 || code == 49
}

/// What the code `code` alone makes of `style`.
spec fn after(style: Style, code: u8) -> Style {
    style.step(seq![code]).unwrap().0
}

/// The number that one or two given digits spell.
proof fn lemma_number(s: Seq<char>, n: int)
    requires
        s.len() == 1 && is_digit(s[0]) && n == s[0] as int - '0' as int || s.len() == 2
            && is_digit(s[0]) && is_digit(s[1]) && n == (s[0] as int - '0' as int) * 10 + (
        s[1] as int - '0' as int),
    ensures
        short_number(s),
        decimal(s) == n,
{
    reveal_with_fuel(decimal, 3);
    if s.len() == 2 {
        assert(s.drop_last().len() == 1);
        assert(s.drop_last().drop_last().len() == 0);
        assert(s.drop_last().last() == s[0]);
    } else {
        assert(s.drop_last().len() == 0);
    }
}

/// A single short number is a single code.
proof fn lemma_codes_1(a: Seq<char>)
    requires
        short_number(a),
    ensures
        sgr_codes(a) == Some(seq![decimal(a) as u8]),
{
    lemma_short_number(a);
    lemma_split_single(a, ';');
    assert(sgr_codes(a).unwrap() =~= seq![decimal(a) as u8]);
}

/// Two short numbers with a semicolon between them are two codes.
proof fn lemma_codes_2(a: Seq<char>, b: Seq<char>)
    requires
        short_number(a),
        short_number(b),
    ensures
        sgr_codes(a + seq![';'] + b) == Some(seq![decimal(a) as u8, decimal(b) as u8]),
{
    lemma_short_number(a);
    lemma_short_number(b);
    lemma_split_single(a, ';');
    lemma_split_single(b, ';');
    lemma_split_concat(a, b, ';');
    let tokens = split(a + seq![';'] + b, ';');
    assert(tokens =~= seq![a, b]);
    assert(sgr_codes(a + seq![';'] + b).unwrap() =~= seq![decimal(a) as u8, decimal(b) as u8]);
}

/// Three short numbers with semicolons between them are three codes.
proof fn lemma_codes_3(a: Seq<char>, b: Seq<char>, c: Seq<char>)
    requires
        short_number(a),
        short_number(b),
        short_number(c),
    ensures
        sgr_codes(a + seq![';'] + (b + seq![';'] + c)) == Some(
            seq![decimal(a) as u8, decimal(b) as u8, decimal(c) as u8],
        ),
{
    lemma_short_number(a);
    lemma_short_number(b);
    lemma_short_number(c);
    lemma_split_single(a, ';');
    lemma_split_single(b, ';');
    lemma_split_single(c, ';');
    lemma_split_concat(b, c, ';');
    lemma_split_concat(a, b + seq![';'] + c, ';');
    let tokens = split(a + seq![';'] + (b + seq![';'] + c), ';');
    assert(tokens =~= seq![a, b, c]);
    assert(sgr_codes(a + seq![';'] + (b + seq![';'] + c)).unwrap() =~= seq![
        decimal(a) as u8,
        decimal(b) as u8,
        decimal(c) as u8,
    ]);
}

/// A value of one short number that is a simple code describes what the
/// code makes of the plain style.
proof fn lemma_value_1(value: Seq<char>, a: Seq<char>, x: u8)
    requires
        value =~= a,
        short_number(a),
        decimal(a) == x,
        simple(x),
    ensures
        describes(value, after(Style::plain(), x)),
{
    reveal(describes);
    lemma_codes_1(a);
    reveal_with_fuel(Style::apply, 2);
    assert(seq![x].skip(1) =~= Seq::<u8>::empty());
}

/// A value of two short numbers that are simple codes describes what the
/// codes make of the plain style, one after the other.
proof fn lemma_value_2(value: Seq<char>, a: Seq<char>, b: Seq<char>, x: u8, y: u8)
    requires
        value =~= a + seq![';'] + b,
        short_number(a),
        short_number(b),
        decimal(a) == x,
        decimal(b) == y,
        simple(x),
        simple(y),
    ensures
        describes(value, after(after(Style::plain(), x), y)),
{
    reveal(describes);
    lemma_codes_2(a, b);
    reveal_with_fuel(Style::apply, 3);
    let codes = seq![x, y];
    assert(codes.skip(1) =~= seq![y]);
    assert(seq![y].skip(1) =~= Seq::<u8>::empty());
    assert(Style::plain().step(codes) == Some((after(Style::plain(), x), 1nat)));
}

/// A value of three short numbers that are simple codes describes what the
/// codes make of the plain style, one after the other.
proof fn lemma_value_3(
    value: Seq<char>,
    a: Seq<char>,
    b: Seq<char>,
    c: Seq<char>,
    x: u8,
    y: u8,
    z: u8,
)
    requires
        value =~= a + seq![';'] + (b + seq![';'] + c),
        short_number(a),
        short_number(b),
        short_number(c),
        decimal(a) == x,
        decimal(b) == y,
        decimal(c) == z,
        simple(x),
        simple(y),
        simple(z),
    ensures
        describes(value, after(after(after(Style::plain(), x), y), z)),
{
    reveal(describes);
    lemma_codes_3(a, b, c);
    reveal_with_fuel(Style::apply, 4);
    let codes = seq![x, y, z];
    assert(codes.skip(1) =~= seq![y, z]);
    assert(seq![y, z].skip(1) =~= seq![z]);
    assert(seq![z].skip(1) =~= Seq::<u8>::empty());
    assert(Style::plain().step(codes) == Some((after(Style::plain(), x), 1nat)));
    assert(after(Style::plain(), x).step(seq![y, z]) == Some(
        (after(after(Style::plain(), x), y), 1nat),
    ));
}

/// What each value of the default configuration describes.
#[verifier::rlimit(50)]
proof fn lemma_default_values()
    ensures
        describes("0"@, Style::plain()),
        describes("01;34"@, bold(Color::Blue)),
        describes("01;36"@, bold(Color::Cyan)),
        describes("00"@, Style::plain()),
        describes("40;33"@, on(Color::Yellow, Color::Black)),
        describes("01;35"@, bold(Color::Purple)),
        describes("40;33;01"@, bold_on(Color::Yellow, Color::Black)),
        describes("40;31;01"@, bold_on(Color::Red, Color::Black)),
        describes("37;41"@, on(Color::White, Color::Red)),
        describes("30;43"@, on(Color::Black, Color::Yellow)),
        describes("30;41"@, on(Color::Black, Color::Red)),
        describes("30;42"@, on(Color::Black, Color::Green)),
        describes("34;42"@, on(Color::Blue, Color::Green)),
        describes("37;44"@, on(Color::White, Color::Blue)),
        describes("01;32"@, bold(Color::Green)),
        describes("01;31"@, bold(Color::Red)),
        describes("00;36"@, colored(Color::Cyan)),
{
    assert(describes("0"@, Style::plain())) by {
        reveal_strlit("0");
        lemma_number(seq!['0'], 0);
        lemma_value_1("0"@, seq!['0'], 0);
    }
    assert(describes("01;34"@, bold(Color::Blue))) by {
        reveal_strlit("01;34");
        lemma_number(seq!['0', '1'], 1);
        lemma_number(seq!['3', '4'], 34);
        lemma_value_2("01;34"@, seq!['0', '1'], seq!['3', '4'], 1, 34);
    }
    assert(describes("01;36"@, bold(Color::Cyan))) by {
        reveal_strlit("01;36");
        lemma_number(seq!['0', '1'], 1);
        lemma_number(seq!['3', '6'], 36);
        lemma_value_2("01;36"@, seq!['0', '1'], seq!['3', '6'], 1, 36);
    }
    assert(describes("00"@, Style::plain())) by {
        reveal_strlit("00");
        lemma_number(seq!['0', '0'], 0);
        lemma_value_1("00"@, seq!['0', '0'], 0);
    }
    assert(describes("40;33"@, on(Color::Yellow, Color::Black))) by {
        reveal_strlit("40;33");
        lemma_number(seq!['4', '0'], 40);
        lemma_number(seq!['3', '3'], 33);
        lemma_value_2("40;33"@, seq!['4', '0'], seq!['3', '3'], 40, 33);
    }
    assert(describes("01;35"@, bold(Color::Purple))) by {
        reveal_strlit("01;35");
        lemma_number(seq!['0', '1'], 1);
        lemma_number(seq!['3', '5'], 35);
        lemma_value_2("01;35"@, seq!['0', '1'], seq!['3', '5'], 1, 35);
    }
    assert(describes("40;33;01"@, bold_on(Color::Yellow, Color::Black))) by {
        reveal_strlit("40;33;01");
        lemma_number(seq!['4', '0'], 40);
        lemma_number(seq!['3', '3'], 33);
        lemma_number(seq!['0', '1'], 1);
        lemma_value_3("40;33;01"@, seq!['4', '0'], seq!['3', '3'], seq!['0', '1'], 40, 33, 1);
    }
    assert(describes("40;31;01"@, bold_on(Color::Red, Color::Black))) by {
        reveal_strlit("40;31;01");
        lemma_number(seq!['4', '0'], 40);
        lemma_number(seq!['3', '1'], 31);
        lemma_number(seq!['0', '1'], 1);
        lemma_value_3("40;31;01"@, seq!['4', '0'], seq!['3', '1'], seq!['0', '1'], 40, 31, 1);
    }
    assert(describes("37;41"@, on(Color::White, Color::Red))) by {
        reveal_strlit("37;41");
        lemma_number(seq!['3', '7'], 37);
        lemma_number(seq!['4', '1'], 41);
        lemma_value_2("37;41"@, seq!['3', '7'], seq!['4', '1'], 37, 41);
    }
    assert(describes("30;43"@, on(Color::Black, Color::Yellow))) by {
        reveal_strlit("30;43");
        lemma_number(seq!['3', '0'], 30);
        lemma_number(seq!['4', '3'], 43);
        lemma_value_2("30;43"@, seq!['3', '0'], seq!['4', '3'], 30, 43);
    }
    assert(describes("30;41"@, on(Color::Black, Color::Red))) by {
        reveal_strlit("30;41");
        lemma_number(seq!['3', '0'], 30);
        lemma_number(seq!['4', '1'], 41);
        lemma_value_2("30;41"@, seq!['3', '0'], seq!['4', '1'], 30, 41);
    }
    assert(describes("30;42"@, on(Color::Black, Color::Green))) by {
        reveal_strlit("30;42");
        lemma_number(seq!['3', '0'], 30);
        lemma_number(seq!['4', '2'], 42);
        lemma_value_2("30;42"@, seq!['3', '0'], seq!['4', '2'], 30, 42);
    }
    assert(describes("34;42"@, on(Color::Blue, Color::Green))) by {
        reveal_strlit("34;42");
        lemma_number(seq!['3', '4'], 34);
        lemma_number(seq!['4', '2'], 42);
        lemma_value_2("34;42"@, seq!['3', '4'], seq!['4', '2'], 34, 42);
    }
    assert(describes("37;44"@, on(Color::White, Color::Blue))) by {
        reveal_strlit("37;44");
        lemma_number(seq!['3', '7'], 37);
        lemma_number(seq!['4', '4'], 44);
        lemma_value_2("37;44"@, seq!['3', '7'], seq!['4', '4'], 37, 44);
    }
    assert(describes("01;32"@, bold(Color::Green))) by {
        reveal_strlit("01;32");
        lemma_number(seq!['0', '1'], 1);
        lemma_number(seq!['3', '2'], 32);
        lemma_value_2("01;32"@, seq!['0', '1'], seq!['3', '2'], 1, 32);
    }
    assert(describes("01;31"@, bold(Color::Red))) by {
        reveal_strlit("01;31");
        lemma_number(seq!['0', '1'], 1);
        lemma_number(seq!['3', '1'], 31);
        lemma_value_2("01;31"@, seq!['0', '1'], seq!['3', '1'], 1, 31);
    }
    assert(describes("00;36"@, colored(Color::Cyan))) by {
        reveal_strlit("00;36");
        lemma_number(seq!['0', '0'], 0);
        lemma_number(seq!['3', '6'], 36);
        lemma_value_2("00;36"@, seq!['0', '0'], seq!['3', '6'], 0, 36);
    }
}

/// Where the entries of the default configuration stand in it.
#[verifier::rlimit(50)]
proof fn lemma_default_text()
    ensures
        LS_COLORS_DEFAULT@.len() == 1495,
        entry_at(LS_COLORS_DEFAULT@, 0, Indicator::Reset.key(), "0"@, 5),
        entry_at(LS_COLORS_DEFAULT@, 5, Indicator::Directory.key(), "01;34"@, 14),
        entry_at(LS_COLORS_DEFAULT@, 14, Indicator::SymbolicLink.key(), "01;36"@, 23),
        entry_at(LS_COLORS_DEFAULT@, 23, Indicator::MultipleHardLinks.key(), "00"@, 29),
        entry_at(LS_COLORS_DEFAULT@, 29, Indicator::FIFO.key(), "40;33"@, 38),
        entry_at(LS_COLORS_DEFAULT@, 38, Indicator::Socket.key(), "01;35"@, 47),
        entry_at(LS_COLORS_DEFAULT@, 47, Indicator::Door.key(), "01;35"@, 56),
        entry_at(LS_COLORS_DEFAULT@, 56, Indicator::BlockDevice.key(), "40;33;01"@, 68),
        entry_at(LS_COLORS_DEFAULT@, 68, Indicator::CharacterDevice.key(), "40;33;01"@, 80),
        entry_at(LS_COLORS_DEFAULT@, 80, Indicator::OrphanedSymbolicLink.key(), "40;31;01"@, 92),
        entry_at(LS_COLORS_DEFAULT@, 92, Indicator::MissingFile.key(), "00"@, 98),
        entry_at(LS_COLORS_DEFAULT@, 98, Indicator::Setuid.key(), "37;41"@, 107),
        entry_at(LS_COLORS_DEFAULT@, 107, Indicator::Setgid.key(), "30;43"@, 116),
        entry_at(LS_COLORS_DEFAULT@, 116, Indicator::Capabilities.key(), "30;41"@, 125),
        entry_at(LS_COLORS_DEFAULT@, 125, Indicator::StickyAndOtherWritable.key(), "30;42"@, 134),
        entry_at(LS_COLORS_DEFAULT@, 134, Indicator::OtherWritable.key(), "34;42"@, 143),
        entry_at(LS_COLORS_DEFAULT@, 143, Indicator::Sticky.key(), "37;44"@, 152),
        entry_at(LS_COLORS_DEFAULT@, 152, Indicator::ExecutableFile.key(), "01;32"@, 161),
        archive_suffixes().len() == 46,
        rule_at(LS_COLORS_DEFAULT@, 161, archive_suffixes()[0], "01;31"@, 173),
        rule_at(LS_COLORS_DEFAULT@, 173, archive_suffixes()[1], "01;31"@, 185),
        rule_at(LS_COLORS_DEFAULT@, 185, archive_suffixes()[2], "01;31"@, 197),
        rule_at(LS_COLORS_DEFAULT@, 197, archive_suffixes()[3], "01;31"@, 209),
        rule_at(LS_COLORS_DEFAULT@, 209, archive_suffixes()[4], "01;31"@, 221),
        rule_at(LS_COLORS_DEFAULT@, 221, archive_suffixes()[5], "01;31"@, 233),
        rule_at(LS_COLORS_DEFAULT@, 233, archive_suffixes()[6], "01;31"@, 245),
        rule_at(LS_COLORS_DEFAULT@, 245, archive_suffixes()[7], "01;31"@, 257),
        rule_at(LS_COLORS_DEFAULT@, 257, archive_suffixes()[8], "01;31"@, 270),
        rule_at(LS_COLORS_DEFAULT@, 270, archive_suffixes()[9], "01;31"@, 282),
        rule_at(LS_COLORS_DEFAULT@, 282, archive_suffixes()[10], "01;31"@, 294),
        rule_at(LS_COLORS_DEFAULT@, 294, archive_suffixes()[11], "01;31"@, 306),
        rule_at(LS_COLORS_DEFAULT@, 306, archive_suffixes()[12], "01;31"@, 318),
        rule_at(LS_COLORS_DEFAULT@, 318, archive_suffixes()[13], "01;31"@, 330),
        rule_at(LS_COLORS_DEFAULT@, 330, archive_suffixes()[14], "01;31"@, 340),
        rule_at(LS_COLORS_DEFAULT@, 340, archive_suffixes()[15], "01;31"@, 351),
        rule_at(LS_COLORS_DEFAULT@, 351, archive_suffixes()[16], "01;31"@, 362),
        rule_at(LS_COLORS_DEFAULT@, 362, archive_suffixes()[17], "01;31"@, 374),
        rule_at(LS_COLORS_DEFAULT@, 374, archive_suffixes()[18], "01;31"@, 385),
        rule_at(LS_COLORS_DEFAULT@, 385, archive_suffixes()[19], "01;31"@, 397),
        rule_at(LS_COLORS_DEFAULT@, 397, archive_suffixes()[20], "01;31"@, 408),
        rule_at(LS_COLORS_DEFAULT@, 408, archive_suffixes()[21], "01;31"@, 420),
        rule_at(LS_COLORS_DEFAULT@, 420, archive_suffixes()[22], "01;31"@, 433),
        rule_at(LS_COLORS_DEFAULT@, 433, archive_suffixes()[23], "01;31"@, 445),
        rule_at(LS_COLORS_DEFAULT@, 445, archive_suffixes()[24], "01;31"@, 456),
        rule_at(LS_COLORS_DEFAULT@, 456, archive_suffixes()[25], "01;31"@, 468),
        rule_at(LS_COLORS_DEFAULT@, 468, archive_suffixes()[26], "01;31"@, 481),
        rule_at(LS_COLORS_DEFAULT@, 481, archive_suffixes()[27], "01;31"@, 492),
        rule_at(LS_COLORS_DEFAULT@, 492, archive_suffixes()[28], "01;31"@, 504),
        rule_at(LS_COLORS_DEFAULT@, 504, archive_suffixes()[29], "01;31"@, 516),
        rule_at(LS_COLORS_DEFAULT@, 516, archive_suffixes()[30], "01;31"@, 528),
        rule_at(LS_COLORS_DEFAULT@, 528, archive_suffixes()[31], "01;31"@, 540),
        rule_at(LS_COLORS_DEFAULT@, 540, archive_suffixes()[32], "01;31"@, 552),
        rule_at(LS_COLORS_DEFAULT@, 552, archive_suffixes()[33], "01;31"@, 564),
        rule_at(LS_COLORS_DEFAULT@, 564, archive_suffixes()[34], "01;31"@, 576),
        rule_at(LS_COLORS_DEFAULT@, 576, archive_suffixes()[35], "01;31"@, 588),
        rule_at(LS_COLORS_DEFAULT@, 588, archive_suffixes()[36], "01;31"@, 600),
        rule_at(LS_COLORS_DEFAULT@, 600, archive_suffixes()[37], "01;31"@, 612),
        rule_at(LS_COLORS_DEFAULT@, 612, archive_suffixes()[38], "01;31"@, 625),
        rule_at(LS_COLORS_DEFAULT@, 625, archive_suffixes()[39], "01;31"@, 636),
        rule_at(LS_COLORS_DEFAULT@, 636, archive_suffixes()[40], "01;31"@, 647),
        rule_at(LS_COLORS_DEFAULT@, 647, archive_suffixes()[41], "01;31"@, 659),
        rule_at(LS_COLORS_DEFAULT@, 659, archive_suffixes()[42], "01;31"@, 671),
        rule_at(LS_COLORS_DEFAULT@, 671, archive_suffixes()[43], "01;31"@, 683),
        rule_at(LS_COLORS_DEFAULT@, 683, archive_suffixes()[44], "01;31"@, 695),
        rule_at(LS_COLORS_DEFAULT@, 695, archive_suffixes()[45], "01;31"@, 707),
        picture_suffixes().len() == 49,
        rule_at(LS_COLORS_DEFAULT@, 707, picture_suffixes()[0], "01;35"@, 719),
        rule_at(LS_COLORS_DEFAULT@, 719, picture_suffixes()[1], "01;35"@, 732),
        rule_at(LS_COLORS_DEFAULT@, 732, picture_suffixes()[2], "01;35"@, 745),
        rule_at(LS_COLORS_DEFAULT@, 745, picture_suffixes()[3], "01;35"@, 759),
        rule_at(LS_COLORS_DEFAULT@, 759, picture_suffixes()[4], "01;35"@, 771),
        rule_at(LS_COLORS_DEFAULT@, 771, picture_suffixes()[5], "01;35"@, 783),
        rule_at(LS_COLORS_DEFAULT@, 783, picture_suffixes()[6], "01;35"@, 795),
        rule_at(LS_COLORS_DEFAULT@, 795, picture_suffixes()[7], "01;35"@, 807),
        rule_at(LS_COLORS_DEFAULT@, 807, picture_suffixes()[8], "01;35"@, 819),
        rule_at(LS_COLORS_DEFAULT@, 819, picture_suffixes()[9], "01;35"@, 831),
        rule_at(LS_COLORS_DEFAULT@, 831, picture_suffixes()[10], "01;35"@, 843),
        rule_at(LS_COLORS_DEFAULT@, 843, picture_suffixes()[11], "01;35"@, 855),
        rule_at(LS_COLORS_DEFAULT@, 855, picture_suffixes()[12], "01;35"@, 867),
        rule_at(LS_COLORS_DEFAULT@, 867, picture_suffixes()[13], "01;35"@, 880),
        rule_at(LS_COLORS_DEFAULT@, 880, picture_suffixes()[14], "01;35"@, 892),
        rule_at(LS_COLORS_DEFAULT@, 892, picture_suffixes()[15], "01;35"@, 904),
        rule_at(LS_COLORS_DEFAULT@, 904, picture_suffixes()[16], "01;35"@, 917),
        rule_at(LS_COLORS_DEFAULT@, 917, picture_suffixes()[17], "01;35"@, 929),
        rule_at(LS_COLORS_DEFAULT@, 929, picture_suffixes()[18], "01;35"@, 941),
        rule_at(LS_COLORS_DEFAULT@, 941, picture_suffixes()[19], "01;35"@, 953),
        rule_at(LS_COLORS_DEFAULT@, 953, picture_suffixes()[20], "01;35"@, 965),
        rule_at(LS_COLORS_DEFAULT@, 965, picture_suffixes()[21], "01;35"@, 978),
        rule_at(LS_COLORS_DEFAULT@, 978, picture_suffixes()[22], "01;35"@, 990),
        rule_at(LS_COLORS_DEFAULT@, 990, picture_suffixes()[23], "01;35"@, 1002),
        rule_at(LS_COLORS_DEFAULT@, 1002, picture_suffixes()[24], "01;35"@, 1015),
        rule_at(LS_COLORS_DEFAULT@, 1015, picture_suffixes()[25], "01;35"@, 1027),
        rule_at(LS_COLORS_DEFAULT@, 1027, picture_suffixes()[26], "01;35"@, 1039),
        rule_at(LS_COLORS_DEFAULT@, 1039, picture_suffixes()[27], "01;35"@, 1051),
        rule_at(LS_COLORS_DEFAULT@, 1051, picture_suffixes()[28], "01;35"@, 1064),
        rule_at(LS_COLORS_DEFAULT@, 1064, picture_suffixes()[29], "01;35"@, 1076),
        rule_at(LS_COLORS_DEFAULT@, 1076, picture_suffixes()[30], "01;35"@, 1087),
        rule_at(LS_COLORS_DEFAULT@, 1087, picture_suffixes()[31], "01;35"@, 1099),
        rule_at(LS_COLORS_DEFAULT@, 1099, picture_suffixes()[32], "01;35"@, 1111),
        rule_at(LS_COLORS_DEFAULT@, 1111, picture_suffixes()[33], "01;35"@, 1123),
        rule_at(LS_COLORS_DEFAULT@, 1123, picture_suffixes()[34], "01;35"@, 1134),
        rule_at(LS_COLORS_DEFAULT@, 1134, picture_suffixes()[35], "01;35"@, 1147),
        rule_at(LS_COLORS_DEFAULT@, 1147, picture_suffixes()[36], "01;35"@, 1159),
        rule_at(LS_COLORS_DEFAULT@, 1159, picture_suffixes()[37], "01;35"@, 1171),
        rule_at(LS_COLORS_DEFAULT@, 1171, picture_suffixes()[38], "01;35"@, 1183),
        rule_at(LS_COLORS_DEFAULT@, 1183, picture_suffixes()[39], "01;35"@, 1195),
        rule_at(LS_COLORS_DEFAULT@, 1195, picture_suffixes()[40], "01;35"@, 1206),
        rule_at(LS_COLORS_DEFAULT@, 1206, picture_suffixes()[41], "01;35"@, 1217),
        rule_at(LS_COLORS_DEFAULT@, 1217, picture_suffixes()[42], "01;35"@, 1229),
        rule_at(LS_COLORS_DEFAULT@, 1229, picture_suffixes()[43], "01;35"@, 1241),
        rule_at(LS_COLORS_DEFAULT@, 1241, picture_suffixes()[44], "01;35"@, 1253),
        rule_at(LS_COLORS_DEFAULT@, 1253, picture_suffixes()[45], "01;35"@, 1265),
        rule_at(LS_COLORS_DEFAULT@, 1265, picture_suffixes()[46], "01;35"@, 1277),
        rule_at(LS_COLORS_DEFAULT@, 1277, picture_suffixes()[47], "01;35"@, 1289),
        rule_at(LS_COLORS_DEFAULT@, 1289, picture_suffixes()[48], "01;35"@, 1301),
        sound_suffixes().len() == 16,
        rule_at(LS_COLORS_DEFAULT@, 1301, sound_suffixes()[0], "00;36"@, 1313),
        rule_at(LS_COLORS_DEFAULT@, 1313, sound_suffixes()[1], "00;36"@, 1324),
        rule_at(LS_COLORS_DEFAULT@, 1324, sound_suffixes()[2], "00;36"@, 1337),
        rule_at(LS_COLORS_DEFAULT@, 1337, sound_suffixes()[3], "00;36"@, 1349),
        rule_at(LS_COLORS_DEFAULT@, 1349, sound_suffixes()[4], "00;36"@, 1361),
        rule_at(LS_COLORS_DEFAULT@, 1361, sound_suffixes()[5], "00;36"@, 1374),
        rule_at(LS_COLORS_DEFAULT@, 1374, sound_suffixes()[6], "00;36"@, 1386),
        rule_at(LS_COLORS_DEFAULT@, 1386, sound_suffixes()[7], "00;36"@, 1398),
        rule_at(LS_COLORS_DEFAULT@, 1398, sound_suffixes()[8], "00;36"@, 1410),
        rule_at(LS_COLORS_DEFAULT@, 1410, sound_suffixes()[9], "00;36"@, 1422),
        rule_at(LS_COLORS_DEFAULT@, 1422, sound_suffixes()[10], "00;36"@, 1433),
        rule_at(LS_COLORS_DEFAULT@, 1433, sound_suffixes()[11], "00;36"@, 1445),
        rule_at(LS_COLORS_DEFAULT@, 1445, sound_suffixes()[12], "00;36"@, 1457),
        rule_at(LS_COLORS_DEFAULT@, 1457, sound_suffixes()[13], "00;36"@, 1470),
        rule_at(LS_COLORS_DEFAULT@, 1470, sound_suffixes()[14], "00;36"@, 1482),
        rule_at(LS_COLORS_DEFAULT@, 1482, sound_suffixes()[15], "00;36"@, 1495),
{
    reveal_strlit("rs=0:di=01;34:ln=01;36:mh=00:pi=40;33:so=01;35:do=01;35:bd=40;33;01:cd=40;33;01:or=40;31;01:mi=00:su=37;41:sg=30;43:ca=30;41:tw=30;42:ow=34;42:st=37;44:ex=01;32:*.tar=01;31:*.tgz=01;31:*.arc=01;31:*.arj=01;31:*.taz=01;31:*.lha=01;31:*.lz4=01;31:*.lzh=01;31:*.lzma=01;31:*.tlz=01;31:*.txz=01;31:*.tzo=01;31:*.t7z=01;31:*.zip=01;31:*.z=01;31:*.dz=01;31:*.gz=01;31:*.lrz=01;31:*.lz=01;31:*.lzo=01;31:*.xz=01;31:*.zst=01;31:*.tzst=01;31:*.bz2=01;31:*.bz=01;31:*.tbz=01;31:*.tbz2=01;31:*.tz=01;31:*.deb=01;31:*.rpm=01;31:*.jar=01;31:*.war=01;31:*.ear=01;31:*.sar=01;31:*.rar=01;31:*.alz=01;31:*.ace=01;31:*.zoo=01;31:*.cpio=01;31:*.7z=01;31:*.rz=01;31:*.cab=01;31:*.wim=01;31:*.swm=01;31:*.dwm=01;31:*.esd=01;31:*.jpg=01;35:*.jpeg=01;35:*.mjpg=01;35:*.mjpeg=01;35:*.gif=01;35:*.bmp=01;35:*.pbm=01;35:*.pgm=01;35:*.ppm=01;35:*.tga=01;35:*.xbm=01;35:*.xpm=01;35:*.tif=01;35:*.tiff=01;35:*.png=01;35:*.svg=01;35:*.svgz=01;35:*.mng=01;35:*.pcx=01;35:*.mov=01;35:*.mpg=01;35:*.mpeg=01;35:*.m2v=01;35:*.mkv=01;35:*.webm=01;35:*.ogm=01;35:*.mp4=01;35:*.m4v=01;35:*.mp4v=01;35:*.vob=01;35:*.qt=01;35:*.nuv=01;35:*.wmv=01;35:*.asf=01;35:*.rm=01;35:*.rmvb=01;35:*.flc=01;35:*.avi=01;35:*.fli=01;35:*.flv=01;35:*.gl=01;35:*.dl=01;35:*.xcf=01;35:*.xwd=01;35:*.yuv=01;35:*.cgm=01;35:*.emf=01;35:*.ogv=01;35:*.ogx=01;35:*.aac=00;36:*.au=00;36:*.flac=00;36:*.m4a=00;36:*.mid=00;36:*.midi=00;36:*.mka=00;36:*.mp3=00;36:*.mpc=00;36:*.ogg=00;36:*.ra=00;36:*.wav=00;36:*.oga=00;36:*.opus=00;36:*.spx=00;36:*.xspf=00;36:");
    reveal(entry_at);
    reveal(rule_at);
    reveal_with_fuel(stands, 10);
    reveal_with_fuel(clean, 8);
    reveal_strlit("0");
    reveal_strlit("01;34");
    reveal_strlit("01;36");
    reveal_strlit("00");
    reveal_strlit("40;33");
    reveal_strlit("01;35");
    reveal_strlit("40;33;01");
    reveal_strlit("40;31;01");
    reveal_strlit("37;41");
    reveal_strlit("30;43");
    reveal_strlit("30;41");
    reveal_strlit("30;42");
    reveal_strlit("34;42");
    reveal_strlit("37;44");
    reveal_strlit("01;32");
    reveal_strlit("01;31");
    reveal_strlit(".tar");
    reveal_strlit(".tgz");
    reveal_strlit(".arc");
    reveal_strlit(".arj");
    reveal_strlit(".taz");
    reveal_strlit(".lha");
    reveal_strlit(".lz4");
    reveal_strlit(".lzh");
    reveal_strlit(".lzma");
    reveal_strlit(".tlz");
    reveal_strlit(".txz");
    reveal_strlit(".tzo");
    reveal_strlit(".t7z");
    reveal_strlit(".zip");
    reveal_strlit(".z");
    reveal_strlit(".dz");
    reveal_strlit(".gz");
    reveal_strlit(".lrz");
    reveal_strlit(".lz");
    reveal_strlit(".lzo");
    reveal_strlit(".xz");
    reveal_strlit(".zst");
    reveal_strlit(".tzst");
    reveal_strlit(".bz2");
    reveal_strlit(".bz");
    reveal_strlit(".tbz");
    reveal_strlit(".tbz2");
    reveal_strlit(".tz");
    reveal_strlit(".deb");
    reveal_strlit(".rpm");
    reveal_strlit(".jar");
    reveal_strlit(".war");
    reveal_strlit(".ear");
    reveal_strlit(".sar");
    reveal_strlit(".rar");
    reveal_strlit(".alz");
    reveal_strlit(".ace");
    reveal_strlit(".zoo");
    reveal_strlit(".cpio");
    reveal_strlit(".7z");
    reveal_strlit(".rz");
    reveal_strlit(".cab");
    reveal_strlit(".wim");
    reveal_strlit(".swm");
    reveal_strlit(".dwm");
    reveal_strlit(".esd");
    reveal_strlit(".jpg");
    reveal_strlit(".jpeg");
    reveal_strlit(".mjpg");
    reveal_strlit(".mjpeg");
    reveal_strlit(".gif");
    reveal_strlit(".bmp");
    reveal_strlit(".pbm");
    reveal_strlit(".pgm");
    reveal_strlit(".ppm");
    reveal_strlit(".tga");
    reveal_strlit(".xbm");
    reveal_strlit(".xpm");
    reveal_strlit(".tif");
    reveal_strlit(".tiff");
    reveal_strlit(".png");
    reveal_strlit(".svg");
    reveal_strlit(".svgz");
    reveal_strlit(".mng");
    reveal_strlit(".pcx");
    reveal_strlit(".mov");
    reveal_strlit(".mpg");
    reveal_strlit(".mpeg");
    reveal_strlit(".m2v");
    reveal_strlit(".mkv");
    reveal_strlit(".webm");
    reveal_strlit(".ogm");
    reveal_strlit(".mp4");
    reveal_strlit(".m4v");
    reveal_strlit(".mp4v");
    reveal_strlit(".vob");
    reveal_strlit(".qt");
    reveal_strlit(".nuv");
    reveal_strlit(".wmv");
    reveal_strlit(".asf");
    reveal_strlit(".rm");
    reveal_strlit(".rmvb");
    reveal_strlit(".flc");
    reveal_strlit(".avi");
    reveal_strlit(".fli");
    reveal_strlit(".flv");
    reveal_strlit(".gl");
    reveal_strlit(".dl");
    reveal_strlit(".xcf");
    reveal_strlit(".xwd");
    reveal_strlit(".yuv");
    reveal_strlit(".cgm");
    reveal_strlit(".emf");
    reveal_strlit(".ogv");
    reveal_strlit(".ogx");
    reveal_strlit("00;36");
    reveal_strlit(".aac");
    reveal_strlit(".au");
    reveal_strlit(".flac");
    reveal_strlit(".m4a");
    reveal_strlit(".mid");
    reveal_strlit(".midi");
    reveal_strlit(".mka");
    reveal_strlit(".mp3");
    reveal_strlit(".mpc");
    reveal_strlit(".ogg");
    reveal_strlit(".ra");
    reveal_strlit(".wav");
    reveal_strlit(".oga");
    reveal_strlit(".opus");
    reveal_strlit(".spx");
    reveal_strlit(".xspf");
}

/// The entries for the indicators give each indicator its default style.
#[verifier::rlimit(50)]
proof fn lemma_default_indicators()
    ensures
        LsColorsView::baseline() == continued(
            LsColorsView::empty().with_indicators(default_indicators()),
            LS_COLORS_DEFAULT@,
            161,
        ),
{
    lemma_default_values();
    lemma_default_text();
    let text = LS_COLORS_DEFAULT@;
    assert(LsColorsView::baseline() == continued(LsColorsView::empty(), text, 0)) by {
        reveal(continued);
        assert(text.skip(0) =~= text);
    }
    let r = LsColorsView::empty();
    let r = indicator_at(r, text, 0, Indicator::Reset, "0"@, Style::plain(), 5);
    let r = indicator_at(r, text, 5, Indicator::Directory, "01;34"@, bold(Color::Blue), 14);
    let r = indicator_at(r, text, 14, Indicator::SymbolicLink, "01;36"@, bold(Color::Cyan), 23);
    let r = indicator_at(r, text, 23, Indicator::MultipleHardLinks, "00"@, Style::plain(), 29);
    let r = indicator_at(
        r,
        text,
        29,
        Indicator::FIFO,
        "40;33"@,
        on(Color::Yellow, Color::Black),
        38,
    );
    let r = indicator_at(r, text, 38, Indicator::Socket, "01;35"@, bold(Color::Purple), 47);
    let r = indicator_at(r, text, 47, Indicator::Door, "01;35"@, bold(Color::Purple), 56);
    let r = indicator_at(
        r,
        text,
        56,
        Indicator::BlockDevice,
        "40;33;01"@,
        bold_on(Color::Yellow, Color::Black),
        68,
    );
    let r = indicator_at(
        r,
        text,
        68,
        Indicator::CharacterDevice,
        "40;33;01"@,
        bold_on(Color::Yellow, Color::Black),
        80,
    );
    let r = indicator_at(
        r,
        text,
        80,
        Indicator::OrphanedSymbolicLink,
        "40;31;01"@,
        bold_on(Color::Red, Color::Black),
        92,
    );
    let r = indicator_at(r, text, 92, Indicator::MissingFile, "00"@, Style::plain(), 98);
    let r = indicator_at(
        r,
        text,
        98,
        Indicator::Setuid,
        "37;41"@,
        on(Color::White, Color::Red),
        107,
    );
    let r = indicator_at(
        r,
        text,
        107,
        Indicator::Setgid,
        "30;43"@,
        on(Color::Black, Color::Yellow),
        116,
    );
    let r = indicator_at(
        r,
        text,
        116,
        Indicator::Capabilities,
        "30;41"@,
        on(Color::Black, Color::Red),
        125,
    );
    let r = indicator_at(
        r,
        text,
        125,
        Indicator::StickyAndOtherWritable,
        "30;42"@,
        on(Color::Black, Color::Green),
        134,
    );
    let r = indicator_at(
        r,
        text,
        134,
        Indicator::OtherWritable,
        "34;42"@,
        on(Color::Blue, Color::Green),
        143,
    );
    let r = indicator_at(
        r,
        text,
        143,
        Indicator::Sticky,
        "37;44"@,
        on(Color::White, Color::Blue),
        152,
    );
    let r = indicator_at(
        r,
        text,
        152,
        Indicator::ExecutableFile,
        "01;32"@,
        bold(Color::Green),
        161,
    );
}

/// The entries for archives add the rules for them.
#[verifier::rlimit(50)]
proof fn lemma_default_archive_suffixes(registry: LsColorsView)
    ensures
        continued(registry, LS_COLORS_DEFAULT@, 161) == continued(
            registry.with_rules(rules(archive_suffixes(), bold(Color::Red))),
            LS_COLORS_DEFAULT@,
            707,
        ),
{
    lemma_default_values();
    lemma_default_text();
    let text = LS_COLORS_DEFAULT@;
    let all = archive_suffixes();
    let value = "01;31"@;
    let style = bold(Color::Red);
    suffix_at(registry, text, 161, all, 0, value, style, 173);
    suffix_at(registry, text, 173, all, 1, value, style, 185);
    suffix_at(registry, text, 185, all, 2, value, style, 197);
    suffix_at(registry, text, 197, all, 3, value, style, 209);
    suffix_at(registry, text, 209, all, 4, value, style, 221);
    suffix_at(registry, text, 221, all, 5, value, style, 233);
    suffix_at(registry, text, 233, all, 6, value, style, 245);
    suffix_at(registry, text, 245, all, 7, value, style, 257);
    suffix_at(registry, text, 257, all, 8, value, style, 270);
    suffix_at(registry, text, 270, all, 9, value, style, 282);
    suffix_at(registry, text, 282, all, 10, value, style, 294);
    suffix_at(registry, text, 294, all, 11, value, style, 306);
    suffix_at(registry, text, 306, all, 12, value, style, 318);
    suffix_at(registry, text, 318, all, 13, value, style, 330);
    suffix_at(registry, text, 330, all, 14, value, style, 340);
    suffix_at(registry, text, 340, all, 15, value, style, 351);
    suffix_at(registry, text, 351, all, 16, value, style, 362);
    suffix_at(registry, text, 362, all, 17, value, style, 374);
    suffix_at(registry, text, 374, all, 18, value, style, 385);
    suffix_at(registry, text, 385, all, 19, value, style, 397);
    suffix_at(registry, text, 397, all, 20, value, style, 408);
    suffix_at(registry, text, 408, all, 21, value, style, 420);
    suffix_at(registry, text, 420, all, 22, value, style, 433);
    suffix_at(registry, text, 433, all, 23, value, style, 445);
    suffix_at(registry, text, 445, all, 24, value, style, 456);
    suffix_at(registry, text, 456, all, 25, value, style, 468);
    suffix_at(registry, text, 468, all, 26, value, style, 481);
    suffix_at(registry, text, 481, all, 27, value, style, 492);
    suffix_at(registry, text, 492, all, 28, value, style, 504);
    suffix_at(registry, text, 504, all, 29, value, style, 516);
    suffix_at(registry, text, 516, all, 30, value, style, 528);
    suffix_at(registry, text, 528, all, 31, value, style, 540);
    suffix_at(registry, text, 540, all, 32, value, style, 552);
    suffix_at(registry, text, 552, all, 33, value, style, 564);
    suffix_at(registry, text, 564, all, 34, value, style, 576);
    suffix_at(registry, text, 576, all, 35, value, style, 588);
    suffix_at(registry, text, 588, all, 36, value, style, 600);
    suffix_at(registry, text, 600, all, 37, value, style, 612);
    suffix_at(registry, text, 612, all, 38, value, style, 625);
    suffix_at(registry, text, 625, all, 39, value, style, 636);
    suffix_at(registry, text, 636, all, 40, value, style, 647);
    suffix_at(registry, text, 647, all, 41, value, style, 659);
    suffix_at(registry, text, 659, all, 42, value, style, 671);
    suffix_at(registry, text, 671, all, 43, value, style, 683);
    suffix_at(registry, text, 683, all, 44, value, style, 695);
    suffix_at(registry, text, 695, all, 45, value, style, 707);
    lemma_suffixes_at(registry, text, 161, all, style, 707);
}

/// The entries for images and videos add the rules for them.
#[verifier::rlimit(50)]
proof fn lemma_default_picture_suffixes(registry: LsColorsView)
    ensures
        continued(registry, LS_COLORS_DEFAULT@, 707) == continued(
            registry.with_rules(rules(picture_suffixes(), bold(Color::Purple))),
            LS_COLORS_DEFAULT@,
            1301,
        ),
{
    lemma_default_values();
    lemma_default_text();
    let text = LS_COLORS_DEFAULT@;
    let all = picture_suffixes();
    let value = "01;35"@;
    let style = bold(Color::Purple);
    suffix_at(registry, text, 707, all, 0, value, style, 719);
    suffix_at(registry, text, 719, all, 1, value, style, 732);
    suffix_at(registry, text, 732, all, 2, value, style, 745);
    suffix_at(registry, text, 745, all, 3, value, style, 759);
    suffix_at(registry, text, 759, all, 4, value, style, 771);
    suffix_at(registry, text, 771, all, 5, value, style, 783);
    suffix_at(registry, text, 783, all, 6, value, style, 795);
    suffix_at(registry, text, 795, all, 7, value, style, 807);
    suffix_at(registry, text, 807, all, 8, value, style, 819);
    suffix_at(registry, text, 819, all, 9, value, style, 831);
    suffix_at(registry, text, 831, all, 10, value, style, 843);
    suffix_at(registry, text, 843, all, 11, value, style, 855);
    suffix_at(registry, text, 855, all, 12, value, style, 867);
    suffix_at(registry, text, 867, all, 13, value, style, 880);
    suffix_at(registry, text, 880, all, 14, value, style, 892);
    suffix_at(registry, text, 892, all, 15, value, style, 904);
    suffix_at(registry, text, 904, all, 16, value, style, 917);
    suffix_at(registry, text, 917, all, 17, value, style, 929);
    suffix_at(registry, text, 929, all, 18, value, style, 941);
    suffix_at(registry, text, 941, all, 19, value, style, 953);
    suffix_at(registry, text, 953, all, 20, value, style, 965);
    suffix_at(registry, text, 965, all, 21, value, style, 978);
    suffix_at(registry, text, 978, all, 22, value, style, 990);
    suffix_at(registry, text, 990, all, 23, value, style, 1002);
    suffix_at(registry, text, 1002, all, 24, value, style, 1015);
    suffix_at(registry, text, 1015, all, 25, value, style, 1027);
    suffix_at(registry, text, 1027, all, 26, value, style, 1039);
    suffix_at(registry, text, 1039, all, 27, value, style, 1051);
    suffix_at(registry, text, 1051, all, 28, value, style, 1064);
    suffix_at(registry, text, 1064, all, 29, value, style, 1076);
    suffix_at(registry, text, 1076, all, 30, value, style, 1087);
    suffix_at(registry, text, 1087, all, 31, value, style, 1099);
    suffix_at(registry, text, 1099, all, 32, value, style, 1111);
    suffix_at(registry, text, 1111, all, 33, value, style, 1123);
    suffix_at(registry, text, 1123, all, 34, value, style, 1134);
    suffix_at(registry, text, 1134, all, 35, value, style, 1147);
    suffix_at(registry, text, 1147, all, 36, value, style, 1159);
    suffix_at(registry, text, 1159, all, 37, value, style, 1171);
    suffix_at(registry, text, 1171, all, 38, value, style, 1183);
    suffix_at(registry, text, 1183, all, 39, value, style, 1195);
    suffix_at(registry, text, 1195, all, 40, value, style, 1206);
    suffix_at(registry, text, 1206, all, 41, value, style, 1217);
    suffix_at(registry, text, 1217, all, 42, value, style, 1229);
    suffix_at(registry, text, 1229, all, 43, value, style, 1241);
    suffix_at(registry, text, 1241, all, 44, value, style, 1253);
    suffix_at(registry, text, 1253, all, 45, value, style, 1265);
    suffix_at(registry, text, 1265, all, 46, value, style, 1277);
    suffix_at(registry, text, 1277, all, 47, value, style, 1289);
    suffix_at(registry, text, 1289, all, 48, value, style, 1301);
    lemma_suffixes_at(registry, text, 707, all, style, 1301);
}

/// The entries for audio files add the rules for them.
#[verifier::rlimit(50)]
proof fn lemma_default_sound_suffixes(registry: LsColorsView)
    ensures
        continued(registry, LS_COLORS_DEFAULT@, 1301) == continued(
            registry.with_rules(rules(sound_suffixes(), colored(Color::Cyan))),
            LS_COLORS_DEFAULT@,
            1495,
        ),
{
    lemma_default_values();
    lemma_default_text();
    let text = LS_COLORS_DEFAULT@;
    let all = sound_suffixes();
    let value = "00;36"@;
    let style = colored(Color::Cyan);
    suffix_at(registry, text, 1301, all, 0, value, style, 1313);
    suffix_at(registry, text, 1313, all, 1, value, style, 1324);
    suffix_at(registry, text, 1324, all, 2, value, style, 1337);
    suffix_at(registry, text, 1337, all, 3, value, style, 1349);
    suffix_at(registry, text, 1349, all, 4, value, style, 1361);
    suffix_at(registry, text, 1361, all, 5, value, style, 1374);
    suffix_at(registry, text, 1374, all, 6, value, style, 1386);
    suffix_at(registry, text, 1386, all, 7, value, style, 1398);
    suffix_at(registry, text, 1398, all, 8, value, style, 1410);
    suffix_at(registry, text, 1410, all, 9, value, style, 1422);
    suffix_at(registry, text, 1422, all, 10, value, style, 1433);
    suffix_at(registry, text, 1433, all, 11, value, style, 1445);
    suffix_at(registry, text, 1445, all, 12, value, style, 1457);
    suffix_at(registry, text, 1457, all, 13, value, style, 1470);
    suffix_at(registry, text, 1470, all, 14, value, style, 1482);
    suffix_at(registry, text, 1482, all, 15, value, style, 1495);
    lemma_suffixes_at(registry, text, 1301, all, style, 1495);
}

/// The default configuration describes the default styles of the indicators
/// and the default suffix rules, and nothing else.
pub proof fn law_baseline()
    ensures
        LsColorsView::baseline().indicators == default_indicators(),
        LsColorsView::baseline().suffixes == default_suffixes(),
{
    let text = LS_COLORS_DEFAULT@;
    lemma_default_text();
    lemma_default_indicators();
    let r = LsColorsView::empty().with_indicators(default_indicators());
    lemma_default_archive_suffixes(r);
    let r = r.with_rules(rules(archive_suffixes(), bold(Color::Red)));
    lemma_default_picture_suffixes(r);
    let r = r.with_rules(rules(picture_suffixes(), bold(Color::Purple)));
    lemma_default_sound_suffixes(r);
    let r = r.with_rules(rules(sound_suffixes(), colored(Color::Cyan)));
    lemma_continued_end(r, text);
    assert(r.indicators =~= default_indicators());
    assert(r.suffixes =~= default_suffixes());
}

/// A configuration on top of the default styles leaves the default style of
/// every indicator that none of its entries names as it is.
pub proof fn law_default_styles_persist(config: Seq<char>, indicator: Indicator)
    requires
        default_indicators().contains_key(indicator),
        forall|k: int|
            0 <= k < split(config, ':').len() ==> !names(
                #[trigger] split(config, ':')[k],
                indicator,
            ),
    ensures
        LsColorsView::baseline().with_config(config).style_for_indicator(indicator) == Some(
            default_indicators()[indicator],
        ),
{
    law_baseline();
    law_config_keeps_others(LsColorsView::baseline(), config, indicator);
}

} // verus!
