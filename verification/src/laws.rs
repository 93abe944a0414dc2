//! What holds of every registry, every configuration and every entry.

use vstd::prelude::*;
use crate::file::{FileType, Metadata};
use crate::indicator::Indicator;
use crate::registry::{entry_key, entry_value, last_match, LsColorsView};
use crate::style::{sgr_codes, Style};
use crate::text::{
    byte_of,
    is_digit,
    lemma_first_index,
    lemma_split_concat,
    lemma_split_covers,
    lemma_split_single,
    lowercase,
    split,
};

verus! {

/// The entry that gives `value` to `key`.
pub open spec fn entry(key: Seq<char>, value: Seq<char>) -> Seq<char> {
    key + seq!['='] + value
}

/// The key of the suffix rule for `suffix`.
pub open spec fn suffix_key(suffix: Seq<char>) -> Seq<char> {
    seq!['*'] + suffix
}

/// `s` holds neither the colon that ends an entry nor the equals sign that
/// ends a key.
pub open spec fn unbroken(s: Seq<char>) -> bool {
    forall|j: int| 0 <= j < s.len() ==> s[j] != ':' && s[j] != '='
}

/// `s` holds no colon, which would end an entry.
pub open spec fn uncut(s: Seq<char>) -> bool {
    forall|j: int| 0 <= j < s.len() ==> s[j] != ':'
}

/// The entry names `indicator` as its key.
pub open spec fn names(entry: Seq<char>, indicator: Indicator) -> bool {
    match entry_key(entry) {
        Some(key) => Indicator::of_key(key) == Some(indicator),
        None => false,
    }
}

/// The entry changes no registry: it holds no `=`, or its key begins with `*`
/// and its value describes no style, or its key neither begins with `*` nor
/// names an indicator.
pub open spec fn skipped(entry: Seq<char>) -> bool {
    match entry_key(entry) {
        None => true,
        Some(key) => if key.len() > 0 && key[0] == '*' {
            Style::of_ansi_sequence(entry_value(entry)) is None
        } else {
            Indicator::of_key(key) is None
        },
    }
}

/// A text that spells a byte is made of digits, after a `+` at most.
proof fn lemma_byte_chars(token: Seq<char>)
    requires
        byte_of(token) is Some,
    ensures
        forall|j: int| 0 <= j < token.len() ==> token[j] == '+' || is_digit(token[j]),
{
    assert forall|j: int| 0 <= j < token.len() implies token[j] == '+' || is_digit(token[j]) by {
        if token[0] == '+' {
            if j > 0 {
                assert(token.drop_first()[j - 1] == token[j]);
            }
        }
    }
}

/// A text that describes a style is made of digits, `+` and semicolons.
pub proof fn lemma_style_text(value: Seq<char>)
    requires
        Style::of_ansi_sequence(value) is Some,
    ensures
        unbroken(value),
{
    lemma_split_covers(value, ';');
    let tokens = split(value, ';');
    assert(sgr_codes(value) is Some);
    assert forall|j: int| 0 <= j < value.len() implies value[j] != ':' && value[j] != '=' by {
        if value[j] != ';' {
            let k = choose|k: int|
                0 <= k < tokens.len() && (#[trigger] tokens[k]).contains(value[j]);
            assert(byte_of(tokens[k]) is Some);
            lemma_byte_chars(tokens[k]);
        }
    }
}

/// The key of an indicator is made of two letters.
pub proof fn lemma_key_text(indicator: Indicator)
    ensures
        unbroken(indicator.key()),
        indicator.key().len() == 2,
        indicator.key()[0] != '*',
{
}

/// An entry made of an unbroken key and a value without a colon is one entry
/// of a configuration, and its parts are the key and the value.
pub proof fn lemma_entry_parts(key: Seq<char>, value: Seq<char>)
    requires
        unbroken(key),
        uncut(value),
    ensures
        split(entry(key, value), ':') == seq![entry(key, value)],
        entry_key(entry(key, value)) == Some(key),
        entry_value(entry(key, value)) == value,
{
    let whole = entry(key, value);
    lemma_split_single(whole, ':');
    lemma_first_index(whole, '=', key.len() as int);
    assert(whole.take(key.len() as int) =~= key);
    assert(whole.skip(key.len() + 1int) =~= value);
}

/// A text with an equals sign in it describes no style.
pub proof fn law_equals_sign_in_value(value: Seq<char>)
    requires
        exists|j: int| 0 <= j < value.len() && value[j] == '=',
    ensures
        Style::of_ansi_sequence(value) is None,
{
    if Style::of_ansi_sequence(value) is Some {
        lemma_style_text(value);
    }
}

/// A configuration of one entry applies that entry.
pub proof fn lemma_single_entry(registry: LsColorsView, entry: Seq<char>)
    requires
        split(entry, ':') == seq![entry],
    ensures
        registry.with_config(entry) == registry.with_entry(entry),
{
    let entries = seq![entry];
    assert(entries.drop_last() =~= Seq::<Seq<char>>::empty());
    assert(registry.with_entries(entries.drop_last()) == registry);
    assert(entries.last() == entry);
}

/// Entries applied in two runs are applied as in one.
pub proof fn lemma_entries_concat(
    registry: LsColorsView,
    first: Seq<Seq<char>>,
    second: Seq<Seq<char>>,
)
    ensures
        registry.with_entries(first + second) == registry.with_entries(first).with_entries(
            second,
        ),
    decreases second.len(),
{
    if second.len() == 0 {
        assert(first + second =~= first);
    } else {
        lemma_entries_concat(registry, first, second.drop_last());
        assert((first + second).drop_last() =~= first + second.drop_last());
        assert((first + second).last() == second.last());
    }
}

/// Two configurations joined by a colon do what the first does and then the
/// second.
pub proof fn law_config_concat(registry: LsColorsView, first: Seq<char>, second: Seq<char>)
    ensures
        registry.with_config(first + seq![':'] + second) == registry.with_config(
            first,
        ).with_config(second),
{
    lemma_split_concat(first, second, ':');
    lemma_entries_concat(registry, split(first, ':'), split(second, ':'));
}

/// After the entry `key=value`, where `key` is the key of an indicator and
/// `value` describes a style, the indicator has that style: it is found for
/// the indicator itself, without any fallback.
pub proof fn law_entry_sets_indicator(
    registry: LsColorsView,
    indicator: Indicator,
    value: Seq<char>,
)
    requires
        Style::of_ansi_sequence(value) is Some,
    ensures
        ({
            let after = registry.with_config(entry(indicator.key(), value));
            &&& after.has_color_for(indicator)
            &&& after.indicators[indicator] == Style::of_ansi_sequence(value).unwrap()
            &&& after.style_for_indicator(indicator) == Style::of_ansi_sequence(value)
            &&& after.suffixes == registry.suffixes
        }),
{
    let key = indicator.key();
    lemma_key_text(indicator);
    lemma_style_text(value);
    lemma_entry_parts(key, value);
    lemma_single_entry(registry, entry(key, value));
    indicator.lemma_key_names();
}

/// After the entry `key=value`, where `key` is the key of an indicator and
/// `value` describes no style, the indicator has no style of its own.
pub proof fn law_entry_clears_indicator(
    registry: LsColorsView,
    indicator: Indicator,
    value: Seq<char>,
)
    requires
        uncut(value),
        Style::of_ansi_sequence(value) is None,
    ensures
        ({
            let after = registry.with_config(entry(indicator.key(), value));
            &&& !after.has_color_for(indicator)
            &&& after.indicators == registry.indicators.remove(indicator)
            &&& after.suffixes == registry.suffixes
        }),
{
    let key = indicator.key();
    lemma_key_text(indicator);
    lemma_entry_parts(key, value);
    lemma_single_entry(registry, entry(key, value));
    indicator.lemma_key_names();
}

/// After the entry `*suffix=value`, where `value` describes a style, every
/// file name that ends with the suffix has that style, whatever the case of
/// the letters in the name and in the suffix and whatever rules came before.
pub proof fn law_suffix_entry_decides(
    registry: LsColorsView,
    suffix: Seq<char>,
    value: Seq<char>,
    name: Seq<char>,
)
    requires
        unbroken(suffix),
        Style::of_ansi_sequence(value) is Some,
        lowercase(suffix).is_suffix_of(lowercase(name)),
    ensures
        ({
            let after = registry.with_config(entry(suffix_key(suffix), value));
            &&& after.style_for_name(name) == Style::of_ansi_sequence(value)
            &&& after.suffixes == registry.suffixes.push(
                (lowercase(suffix), Style::of_ansi_sequence(value).unwrap()),
            )
            &&& after.indicators == registry.indicators
        }),
{
    let key = suffix_key(suffix);
    lemma_style_text(value);
    lemma_entry_parts(key, value);
    lemma_single_entry(registry, entry(key, value));
    assert(key.drop_first() =~= suffix);
}

/// Of two entries for the same suffix the one applied last decides: a file
/// name that ends with the suffix has the style of the second entry.
pub proof fn law_last_suffix_entry_wins(
    registry: LsColorsView,
    suffix: Seq<char>,
    first: Seq<char>,
    second: Seq<char>,
    name: Seq<char>,
)
    requires
        unbroken(suffix),
        Style::of_ansi_sequence(first) is Some,
        Style::of_ansi_sequence(second) is Some,
        lowercase(suffix).is_suffix_of(lowercase(name)),
    ensures
        registry.with_config(entry(suffix_key(suffix), first)).with_config(
            entry(suffix_key(suffix), second),
        ).style_for_name(name) == Style::of_ansi_sequence(second),
        registry.with_config(
            entry(suffix_key(suffix), first) + seq![':'] + entry(suffix_key(suffix), second),
        ).style_for_name(name) == Style::of_ansi_sequence(second),
{
    let between = registry.with_config(entry(suffix_key(suffix), first));
    law_suffix_entry_decides(between, suffix, second, name);
    law_config_concat(
        registry,
        entry(suffix_key(suffix), first),
        entry(suffix_key(suffix), second),
    );
}

/// Suffix rules match whatever the case of the letters: two file names that
/// are the same in lowercase have the same style.
pub proof fn law_names_match_in_any_case(registry: LsColorsView, a: Seq<char>, b: Seq<char>)
    requires
        lowercase(a) == lowercase(b),
    ensures
        registry.style_for_name(a) == registry.style_for_name(b),
{
}

/// The rule that decides for a name is the last whose suffix ends the name:
/// no later rule matches, and without a style no rule matches at all.
pub proof fn law_last_match(rules: Seq<(Seq<char>, Style)>, name: Seq<char>)
    ensures
        match last_match(rules, name) {
            Some(style) => exists|k: int|
                0 <= k < rules.len() && (#[trigger] rules[k]).0.is_suffix_of(name) && rules[k].1
                    == style && forall|later: int|
                    k < later < rules.len() ==> !(#[trigger] rules[later]).0.is_suffix_of(name),
            None => forall|k: int|
                0 <= k < rules.len() ==> !(#[trigger] rules[k]).0.is_suffix_of(name),
        },
    decreases rules.len(),
{
    if rules.len() > 0 {
        let last = rules.len() - 1;
        if rules.last().0.is_suffix_of(name) {
            assert(rules[last].0.is_suffix_of(name));
        } else {
            let before = rules.drop_last();
            law_last_match(before, name);
            match last_match(before, name) {
                Some(style) => {
                    let k = choose|k: int|
                        0 <= k < before.len() && (#[trigger] before[k]).0.is_suffix_of(name)
                            && before[k].1 == style && forall|later: int|
                            k < later < before.len() ==> !(#[trigger] before[later]).0.is_suffix_of(
                                name,
                            );
                    assert(rules[k] == before[k]);
                    assert forall|later: int| k < later < rules.len() implies !(
                    #[trigger] rules[later]).0.is_suffix_of(name) by {
                        if later < last {
                            assert(rules[later] == before[later]);
                        }
                    }
                },
                None => {
                    assert forall|k: int| 0 <= k < rules.len() implies !(
                    #[trigger] rules[k]).0.is_suffix_of(name) by {
                        if k < last {
                            assert(rules[k] == before[k]);
                        }
                    }
                },
            }
        }
    }
}

/// The instruction `0` makes the font plain and leaves the colors as they
/// were.
pub proof fn law_reset_keeps_colors(style: Style)
    ensures
        style.apply(seq![0u8]) == (Style { font_style: Style::plain().font_style, ..style }),
{
    reveal_with_fuel(Style::apply, 2);
    assert(seq![0u8].skip(1) =~= Seq::<u8>::empty());
}

/// A font attribute that is on stays on, whatever instructions follow, as long
/// as none of them is `0`.
pub proof fn law_attributes_stay(style: Style, codes: Seq<u8>)
    requires
        forall|k: int| 0 <= k < codes.len() ==> codes[k] != 0,
    ensures
        style.font_style.bold ==> style.apply(codes).font_style.bold,
        style.font_style.italic ==> style.apply(codes).font_style.italic,
        style.font_style.underline ==> style.apply(codes).font_style.underline,
    decreases codes.len(),
{
    if codes.len() > 0 {
        match style.step(codes) {
            Some((next, used)) => {
                let rest = codes.skip(used as int);
                assert forall|k: int| 0 <= k < rest.len() implies rest[k] != 0 by {
                    assert(rest[k] == codes[k + used]);
                }
                law_attributes_stay(next, rest);
            },
            None => {},
        }
    }
}

/// A color and a font attribute may come in either order: the style is the
/// same.
pub proof fn law_color_and_attribute_in_any_order(style: Style, color: u8, attribute: u8)
    requires
        30 <= color <= 37 || 40 <= color <= 47,
        attribute == 1 || attribute == 3 || attribute == 4,
    ensures
        style.apply(seq![color, attribute]) == style.apply(seq![attribute, color]),
{
    reveal_with_fuel(Style::apply, 3);
    assert(seq![color, attribute].skip(1) =~= seq![attribute]);
    assert(seq![attribute, color].skip(1) =~= seq![color]);
    assert(seq![attribute].skip(1) =~= Seq::<u8>::empty());
    assert(seq![color].skip(1) =~= Seq::<u8>::empty());
}

/// After the entry `*suffix=value`, where `value` describes no style, the
/// registry is as it was. So it is where the value holds a second `=`.
pub proof fn law_suffix_entry_without_style(
    registry: LsColorsView,
    suffix: Seq<char>,
    value: Seq<char>,
)
    requires
        unbroken(suffix),
        uncut(value),
        Style::of_ansi_sequence(value) is None,
    ensures
        registry.with_config(entry(suffix_key(suffix), value)) == registry,
{
    let key = suffix_key(suffix);
    lemma_entry_parts(key, value);
    lemma_single_entry(registry, entry(key, value));
}

/// An entry that is skipped changes nothing.
pub proof fn law_skipped_entry(registry: LsColorsView, entry: Seq<char>)
    requires
        skipped(entry),
    ensures
        registry.with_entry(entry) == registry,
{
}

/// Entries that are all skipped change nothing.
proof fn lemma_skipped_entries(registry: LsColorsView, entries: Seq<Seq<char>>)
    requires
        forall|k: int| 0 <= k < entries.len() ==> skipped(#[trigger] entries[k]),
    ensures
        registry.with_entries(entries) == registry,
    decreases entries.len(),
{
    if entries.len() > 0 {
        let before = entries.drop_last();
        assert forall|k: int| 0 <= k < before.len() implies skipped(#[trigger] before[k]) by {
            assert(before[k] == entries[k]);
        }
        lemma_skipped_entries(registry, before);
        assert(skipped(entries[entries.len() - 1]));
    }
}

/// A configuration whose entries are all skipped leaves the registry as it
/// was, and no entry keeps the entries behind it from being applied.
pub proof fn law_skipped_config(registry: LsColorsView, config: Seq<char>)
    requires
        forall|k: int|
            0 <= k < split(config, ':').len() ==> skipped(#[trigger] split(config, ':')[k]),
    ensures
        registry.with_config(config) == registry,
{
    lemma_skipped_entries(registry, split(config, ':'));
}

/// An entry leaves every indicator that it does not name as it was.
pub proof fn law_entry_keeps_others(
    registry: LsColorsView,
    entry: Seq<char>,
    indicator: Indicator,
)
    requires
        !names(entry, indicator),
    ensures
        registry.with_entry(entry).indicators.contains_key(indicator)
            == registry.indicators.contains_key(indicator),
        registry.indicators.contains_key(indicator) ==> registry.with_entry(
            entry,
        ).indicators[indicator] == registry.indicators[indicator],
{
}

/// Entries leave every indicator that none of them names as it was.
pub proof fn lemma_entries_keep_others(
    registry: LsColorsView,
    entries: Seq<Seq<char>>,
    indicator: Indicator,
)
    requires
        forall|k: int| 0 <= k < entries.len() ==> !names(#[trigger] entries[k], indicator),
    ensures
        registry.with_entries(entries).indicators.contains_key(indicator)
            == registry.indicators.contains_key(indicator),
        registry.indicators.contains_key(indicator) ==> registry.with_entries(
            entries,
        ).indicators[indicator] == registry.indicators[indicator],
    decreases entries.len(),
{
    if entries.len() > 0 {
        let before = entries.drop_last();
        assert forall|k: int| 0 <= k < before.len() implies !names(
            #[trigger] before[k],
            indicator,
        ) by {
            assert(before[k] == entries[k]);
        }
        lemma_entries_keep_others(registry, before, indicator);
        law_entry_keeps_others(registry.with_entries(before), entries.last(), indicator);
    }
}

/// A configuration leaves every indicator that none of its entries names as it
/// was: configured with the same style, or not configured.
pub proof fn law_config_keeps_others(
    registry: LsColorsView,
    config: Seq<char>,
    indicator: Indicator,
)
    requires
        forall|k: int|
            0 <= k < split(config, ':').len() ==> !names(
                #[trigger] split(config, ':')[k],
                indicator,
            ),
    ensures
        registry.with_config(config).indicators.contains_key(indicator)
            == registry.indicators.contains_key(indicator),
        registry.indicators.contains_key(indicator) ==> registry.with_config(
            config,
        ).indicators[indicator] == registry.indicators[indicator],
        registry.indicators.contains_key(indicator) ==> registry.with_config(
            config,
        ).style_for_indicator(indicator) == registry.style_for_indicator(indicator),
{
    lemma_entries_keep_others(registry, split(config, ':'), indicator);
}

/// An entry keeps the suffixes in lowercase.
pub proof fn law_entry_keeps_lowercase(registry: LsColorsView, entry: Seq<char>)
    requires
        registry.suffixes_lowercase(),
    ensures
        registry.with_entry(entry).suffixes_lowercase(),
{
    if let Some(key) = entry_key(entry) {
        let suffix = key.drop_first();
        assert(lowercase(lowercase(suffix)) =~= lowercase(suffix));
    }
}

/// A configuration keeps the suffixes in lowercase.
pub proof fn law_config_keeps_lowercase(registry: LsColorsView, config: Seq<char>)
    requires
        registry.suffixes_lowercase(),
    ensures
        registry.with_config(config).suffixes_lowercase(),
{
    lemma_entries_keep_lowercase(registry, split(config, ':'));
}

/// Entries keep the suffixes in lowercase.
proof fn lemma_entries_keep_lowercase(registry: LsColorsView, entries: Seq<Seq<char>>)
    requires
        registry.suffixes_lowercase(),
    ensures
        registry.with_entries(entries).suffixes_lowercase(),
    decreases entries.len(),
{
    if entries.len() > 0 {
        lemma_entries_keep_lowercase(registry, entries.drop_last());
        law_entry_keeps_lowercase(registry.with_entries(entries.drop_last()), entries.last());
    }
}

/// A style that is configured for an indicator is the indicator's style.
/// Without one the fallback's style stands in, then that of the fallback's
/// fallback, then that of normal text; no other style is ever found.
pub proof fn law_fallback(registry: LsColorsView, indicator: Indicator)
    ensures
        registry.has_color_for(indicator) ==> registry.style_for_indicator(indicator) == Some(
            registry.indicators[indicator],
        ),
        !registry.has_color_for(indicator) && registry.has_color_for(indicator.fallback())
            ==> registry.style_for_indicator(indicator) == Some(
            registry.indicators[indicator.fallback()],
        ),
        !registry.has_color_for(indicator) && !registry.has_color_for(indicator.fallback())
            && registry.has_color_for(indicator.fallback().fallback())
            ==> registry.style_for_indicator(indicator) == Some(
            registry.indicators[indicator.fallback().fallback()],
        ),
        registry.style_for_indicator(indicator) is None <==> !registry.has_color_for(indicator)
            && !registry.has_color_for(indicator.fallback()) && !registry.has_color_for(
            indicator.fallback().fallback(),
        ) && !registry.has_color_for(Indicator::Normal),
{
}

/// The chain of fallbacks is followed to its end: an indicator without a
/// style of its own has the style of its fallback, wherever that has one by
/// itself or by its own fallbacks, before the style of normal text is asked.
pub proof fn law_fallback_chain(registry: LsColorsView, indicator: Indicator)
    requires
        !registry.has_color_for(indicator),
        registry.has_color_for(indicator.fallback()) || registry.has_color_for(
            indicator.fallback().fallback(),
        ),
    ensures
        registry.style_for_indicator(indicator) == registry.style_for_indicator(
            indicator.fallback(),
        ),
{
    indicator.law_fallback_closes();
}

/// The missing file has the style of the broken link where it has none of its
/// own, and that of the link where the broken link has none either.
pub proof fn law_missing_file(registry: LsColorsView)
    requires
        !registry.has_color_for(Indicator::MissingFile),
    ensures
        registry.has_color_for(Indicator::OrphanedSymbolicLink)
            ==> registry.style_for_indicator(Indicator::MissingFile) == Some(
            registry.indicators[Indicator::OrphanedSymbolicLink],
        ),
        !registry.has_color_for(Indicator::OrphanedSymbolicLink) && registry.has_color_for(
            Indicator::SymbolicLink,
        ) ==> registry.style_for_indicator(Indicator::MissingFile) == Some(
            registry.indicators[Indicator::SymbolicLink],
        ),
{
}

/// A directory that is sticky and other-writable has the indicator for both
/// together wherever a style is configured for it, though each of the two
/// alone would match as well.
pub proof fn law_sticky_and_other_writable_first(registry: LsColorsView, metadata: Metadata)
    requires
        registry.has_color_for(Indicator::StickyAndOtherWritable),
        metadata.file_type == FileType::Directory,
        metadata.is_sticky(),
        metadata.is_other_writable(),
    ensures
        registry.indicator_for(Some(&metadata)) == Indicator::StickyAndOtherWritable,
{
}

/// Where a style is configured for broken symbolic links, a symbolic link
/// whose target does not exist has that style, and one whose target exists has
/// the style of symbolic links.
pub proof fn law_symbolic_links(registry: LsColorsView, path: Seq<char>, metadata: Metadata)
    requires
        registry.has_color_for(Indicator::OrphanedSymbolicLink),
        metadata.file_type == FileType::SymbolicLink,
    ensures
        !metadata.target_exists ==> registry.indicator_for(Some(&metadata))
            == Indicator::OrphanedSymbolicLink && registry.style_for_path(path, Some(&metadata))
            == Some(registry.indicators[Indicator::OrphanedSymbolicLink]),
        metadata.target_exists ==> registry.indicator_for(Some(&metadata))
            == Indicator::SymbolicLink && registry.style_for_path(path, Some(&metadata))
            == registry.style_for_indicator(Indicator::SymbolicLink),
{
}

/// Without metadata an entry counts as a regular file, and an indicator that
/// has no style configured is never the indicator of an entry, but for the
/// plain kinds that need none.
pub proof fn law_indicator_configured(registry: LsColorsView, metadata: Option<&Metadata>)
    ensures
        metadata is None ==> registry.indicator_for(metadata) == Indicator::RegularFile,
        ({
            let indicator = registry.indicator_for(metadata);
            ||| registry.has_color_for(indicator)
            ||| indicator == Indicator::RegularFile
            ||| indicator == Indicator::Directory
            ||| indicator == Indicator::SymbolicLink
            ||| indicator == Indicator::FIFO
            ||| indicator == Indicator::Socket
            ||| indicator == Indicator::BlockDevice
            ||| indicator == Indicator::CharacterDevice
            ||| indicator == Indicator::MissingFile
        }),
{
}

} // verus!
