//! The registry of configured styles: one style for each indicator that has
//! one, and an ordered list of rules for file name suffixes.

use std::collections::HashMap;
use vstd::prelude::*;
use vstd::slice::slice_subrange;
use crate::baseline::{default_indicators, default_suffixes, law_baseline};
use crate::indicator::Indicator;
use crate::style::Style;
use crate::text::{
    chars_of,
    ends_with,
    find,
    lowercase,
    marks,
    split,
    split_spans,
    to_lowercase,
};

verus! {

/// The styles that a default registry starts with.
pub const LS_COLORS_DEFAULT: &'static str = "rs=0:di=01;34:ln=01;36:mh=00:pi=40;33:so=01;35:do=01;35:bd=40;33;01:cd=40;33;01:or=40;31;01:mi=00:su=37;41:sg=30;43:ca=30;41:tw=30;42:ow=34;42:st=37;44:ex=01;32:*.tar=01;31:*.tgz=01;31:*.arc=01;31:*.arj=01;31:*.taz=01;31:*.lha=01;31:*.lz4=01;31:*.lzh=01;31:*.lzma=01;31:*.tlz=01;31:*.txz=01;31:*.tzo=01;31:*.t7z=01;31:*.zip=01;31:*.z=01;31:*.dz=01;31:*.gz=01;31:*.lrz=01;31:*.lz=01;31:*.lzo=01;31:*.xz=01;31:*.zst=01;31:*.tzst=01;31:*.bz2=01;31:*.bz=01;31:*.tbz=01;31:*.tbz2=01;31:*.tz=01;31:*.deb=01;31:*.rpm=01;31:*.jar=01;31:*.war=01;31:*.ear=01;31:*.sar=01;31:*.rar=01;31:*.alz=01;31:*.ace=01;31:*.zoo=01;31:*.cpio=01;31:*.7z=01;31:*.rz=01;31:*.cab=01;31:*.wim=01;31:*.swm=01;31:*.dwm=01;31:*.esd=01;31:*.jpg=01;35:*.jpeg=01;35:*.mjpg=01;35:*.mjpeg=01;35:*.gif=01;35:*.bmp=01;35:*.pbm=01;35:*.pgm=01;35:*.ppm=01;35:*.tga=01;35:*.xbm=01;35:*.xpm=01;35:*.tif=01;35:*.tiff=01;35:*.png=01;35:*.svg=01;35:*.svgz=01;35:*.mng=01;35:*.pcx=01;35:*.mov=01;35:*.mpg=01;35:*.mpeg=01;35:*.m2v=01;35:*.mkv=01;35:*.webm=01;35:*.ogm=01;35:*.mp4=01;35:*.m4v=01;35:*.mp4v=01;35:*.vob=01;35:*.qt=01;35:*.nuv=01;35:*.wmv=01;35:*.asf=01;35:*.rm=01;35:*.rmvb=01;35:*.flc=01;35:*.avi=01;35:*.fli=01;35:*.flv=01;35:*.gl=01;35:*.dl=01;35:*.xcf=01;35:*.xwd=01;35:*.yuv=01;35:*.cgm=01;35:*.emf=01;35:*.ogv=01;35:*.ogx=01;35:*.aac=00;36:*.au=00;36:*.flac=00;36:*.m4a=00;36:*.mid=00;36:*.midi=00;36:*.mka=00;36:*.mp3=00;36:*.mpc=00;36:*.ogg=00;36:*.ra=00;36:*.wav=00;36:*.oga=00;36:*.opus=00;36:*.spx=00;36:*.xspf=00;36:";

/// What a registry holds: the style of each configured indicator, and the
/// suffix rules in the order in which they were added.
pub struct LsColorsView {
    pub indicators: Map<Indicator, Style>,
    pub suffixes: Seq<(Seq<char>, Style)>,
}

impl LsColorsView {
    /// The registry that holds nothing.
    pub open spec fn empty() -> LsColorsView {
        LsColorsView { indicators: Map::empty(), suffixes: Seq::empty() }
    }

    /// The registry with `style` for `indicator`.
    pub open spec fn with_indicator(self, indicator: Indicator, style: Style) -> LsColorsView {
        LsColorsView { indicators: self.indicators.insert(indicator, style), ..self }
    }

    /// The registry with the given styles for the indicators in place of those
    /// that it has.
    pub open spec fn with_indicators(self, indicators: Map<Indicator, Style>) -> LsColorsView {
        LsColorsView { indicators, ..self }
    }

    /// The registry with no style for `indicator` itself.
    pub open spec fn without_indicator(self, indicator: Indicator) -> LsColorsView {
        LsColorsView { indicators: self.indicators.remove(indicator), ..self }
    }

    /// The registry with a rule that gives `style` to `suffix`, behind the
    /// rules that it has.
    pub open spec fn with_rule(self, suffix: Seq<char>, style: Style) -> LsColorsView {
        LsColorsView { suffixes: self.suffixes.push((suffix, style)), ..self }
    }

    /// The registry with the given suffix rules behind those that it has.
    pub open spec fn with_rules(self, rules: Seq<(Seq<char>, Style)>) -> LsColorsView {
        LsColorsView { suffixes: self.suffixes + rules, ..self }
    }

    /// The registry after one entry `key=value` of a configuration.
    ///
    /// The key is what stands before the first `=`, the value all that
    /// follows it. A key that begins with `*` adds a rule for the rest of the
    /// key in lowercase, if the value describes a style. The key of an
    /// indicator sets the indicator's style to what the value describes, and
    /// removes it if the value describes none. Every other entry changes
    /// nothing, and so does an entry without `=`.
    pub open spec fn with_entry(self, entry: Seq<char>) -> LsColorsView {
        match entry_key(entry) {
            None => self,
            Some(key) => {
                let style = Style::of_ansi_sequence(entry_value(entry));
                if key.len() > 0 && key[0] == '*' {
                    match style {
                        Some(style) => self.with_rule(lowercase(key.drop_first()), style),
                        None => self,
                    }
                } else {
                    match Indicator::of_key(key) {
                        Some(indicator) => match style {
                            Some(style) => self.with_indicator(indicator, style),
                            None => self.without_indicator(indicator),
                        },
                        None => self,
                    }
                }
            },
        }
    }

    /// The registry after the given entries, applied from first to last.
    pub open spec fn with_entries(self, entries: Seq<Seq<char>>) -> LsColorsView
        decreases entries.len(),
    {
        if entries.len() == 0 {
            self
        } else {
            self.with_entries(entries.drop_last()).with_entry(entries.last())
        }
    }

    /// The registry after the entries that `config` lists between colons.
    pub open spec fn with_config(self, config: Seq<char>) -> LsColorsView {
        self.with_entries(split(config, ':'))
    }

    /// The registry that holds the default styles and nothing else.
    pub open spec fn baseline() -> LsColorsView {
        LsColorsView::empty().with_config(LS_COLORS_DEFAULT@)
    }

    /// Whether a style is configured for `indicator` itself.
    pub open spec fn has_color_for(self, indicator: Indicator) -> bool {
        self.indicators.contains_key(indicator)
    }

    /// The style for `indicator`: its own if it has one, else that of its
    /// fallback, else that of the fallback's fallback, else that of normal
    /// text, else none. Only the missing file has a chain of two steps: the
    /// broken link stands in for it, and for that the link.
    pub open spec fn style_for_indicator(self, indicator: Indicator) -> Option<Style> {
        if self.indicators.contains_key(indicator) {
            Some(self.indicators[indicator])
        } else if self.indicators.contains_key(indicator.fallback()) {
            Some(self.indicators[indicator.fallback()])
        } else if self.indicators.contains_key(indicator.fallback().fallback()) {
            Some(self.indicators[indicator.fallback().fallback()])
        } else if self.indicators.contains_key(Indicator::Normal) {
            Some(self.indicators[Indicator::Normal])
        } else {
            None
        }
    }

    /// The style of the rule that decides for the file name `name`: of the
    /// rules whose suffix ends the name in lowercase, the one added last.
    pub open spec fn style_for_name(self, name: Seq<char>) -> Option<Style> {
        last_match(self.suffixes, lowercase(name))
    }

    /// Every suffix is held in lowercase.
    pub open spec fn suffixes_lowercase(self) -> bool {
        forall|k: int|
            0 <= k < self.suffixes.len() ==> lowercase((#[trigger] self.suffixes[k]).0)
                == self.suffixes[k].0
    }
}

/// The key of `entry`: what stands before its first `=`. `None` where the
/// entry holds no `=`.
pub open spec fn entry_key(entry: Seq<char>) -> Option<Seq<char>> {
    match entry.index_of_first('=') {
        Some(at) => Some(entry.take(at)),
        None => None,
    }
}

/// The value of `entry`: all that follows its first `=`, further `=` included.
pub open spec fn entry_value(entry: Seq<char>) -> Seq<char> {
    match entry.index_of_first('=') {
        Some(at) => entry.skip(at + 1),
        None => Seq::empty(),
    }
}

/// The style of the last of `rules` whose suffix ends `name`.
pub open spec fn last_match(rules: Seq<(Seq<char>, Style)>, name: Seq<char>) -> Option<Style>
    decreases rules.len(),
{
    if rules.len() == 0 {
        None
    } else if rules.last().0.is_suffix_of(name) {
        Some(rules.last().1)
    } else {
        last_match(rules.drop_last(), name)
    }
}

/// A rule that gives a style to the file names that end with a suffix.
#[derive(Debug)]
struct SuffixRule {
    suffix: Vec<char>,
    style: Style,
}

/// The indicator styles that a map from indicator numbers holds.
spec fn indicators_of(styles: Map<u8, Style>) -> Map<Indicator, Style> {
    Map::new(
        |indicator: Indicator| styles.contains_key(indicator.index()),
        |indicator: Indicator| styles[indicator.index()],
    )
}

/// The suffix rules as pairs of suffix and style.
spec fn suffixes_of(rules: Seq<SuffixRule>) -> Seq<(Seq<char>, Style)> {
    rules.map_values(|rule: SuffixRule| (rule.suffix@, rule.style))
}

/// Holds information about how different file system entries should be
/// colorized / styled.
#[derive(Debug)]
pub struct LsColors {
    indicator_mapping: HashMap<u8, Style>,
    // The rules are kept in the order in which they were added, because the
    // rule that was added last decides.
    suffix_mapping: Vec<SuffixRule>,
}

impl View for LsColors {
    type V = LsColorsView;

    closed spec fn view(&self) -> LsColorsView {
        LsColorsView {
            indicators: indicators_of(self.indicator_mapping@),
            suffixes: suffixes_of(self.suffix_mapping@),
        }
    }
}

impl LsColors {
    #[verifier::type_invariant]
    spec fn well_formed(self) -> bool {
        self@.suffixes_lowercase()
    }

    /// Construct an empty [`LsColors`](struct.LsColors.html) instance with no
    /// pre-defined styles.
    pub fn empty() -> (lscolors: Self)
        ensures
            lscolors@ == LsColorsView::empty(),
            lscolors@.suffixes_lowercase(),
    {
        let lscolors = LsColors { indicator_mapping: HashMap::new(), suffix_mapping: Vec::new() };
        assert(lscolors@.indicators =~= Map::empty());
        assert(lscolors@.suffixes =~= Seq::empty());
        lscolors
    }

    /// Creates a new [`LsColors`](struct.LsColors.html) instance from the
    /// given string. The basis for this is the default registry.
    pub fn from_string(input: &str) -> (lscolors: Self)
        ensures
            lscolors@ == LsColorsView::baseline().with_config(input@),
            lscolors@.suffixes_lowercase(),
    {
        let mut lscolors = LsColors::default();
        lscolors.add_from_string(input);
        lscolors
    }

    /// Applies the entries of the configuration `input`, from first to last.
    pub fn add_from_string(&mut self, input: &str)
        ensures
            final(self)@ == old(self)@.with_config(input@),
            final(self)@.suffixes_lowercase(),
    {
        proof {
            use_type_invariant(&*self);
        }
        let chars = chars_of(input);
        let spans = split_spans(chars.as_slice(), ':');
        let ghost entries = split(input@, ':');
        let mut indicators: HashMap<u8, Style> = HashMap::new();
        let mut suffixes: Vec<SuffixRule> = Vec::new();
        core::mem::swap(&mut self.suffix_mapping, &mut suffixes);
        core::mem::swap(&mut self.indicator_mapping, &mut indicators);
        let mut k: usize = 0;
        assert(entries.take(0) =~= Seq::empty());
        while k < spans.len()
            invariant
                k <= spans.len(),
                chars@ == input@,
                entries == split(input@, ':'),
                marks(spans@, chars@, entries),
                held(indicators@, suffixes@) == old(self)@.with_entries(entries.take(k as int)),
                held(indicators@, suffixes@).suffixes_lowercase(),
            decreases spans.len() - k,
        {
            let span = spans[k];
            let entry = slice_subrange(chars.as_slice(), span.start, span.end);
            add_entry(&mut indicators, &mut suffixes, entry);
            assert(entries.take(k + 1).drop_last() =~= entries.take(k as int));
            k += 1;
        }
        assert(entries.take(spans.len() as int) =~= entries);
        self.indicator_mapping = indicators;
        self.suffix_mapping = suffixes;
    }

    /// Check if an indicator has an associated color.
    pub fn has_color_for(&self, indicator: Indicator) -> (configured: bool)
        ensures
            configured == self@.has_color_for(indicator),
    {
        self.indicator_mapping.contains_key(&indicator.number())
    }

    /// The style that the suffix rules give to the file name `name`. Letters
    /// match whatever their case, and of the rules that match the one added
    /// last decides.
    pub fn style_for_name(&self, name: &[char]) -> (style: Option<&Style>)
        ensures
            Style::copied(style) == self@.style_for_name(name@),
    {
        let lower = to_lowercase(name);
        let ghost rules = self@.suffixes;
        let mut k: usize = self.suffix_mapping.len();
        assert(rules.take(k as int) =~= rules);
        // The rules are searched from back to front, to be consistent with `ls`.
        while k > 0
            invariant
                k <= self.suffix_mapping.len(),
                rules == self@.suffixes,
                lower@ == lowercase(name@),
                last_match(rules, lower@) == last_match(rules.take(k as int), lower@),
            decreases k,
        {
            k -= 1;
            let rule = &self.suffix_mapping[k];
            assert(rules.take(k + 1).drop_last() =~= rules.take(k as int));
            if ends_with(lower.as_slice(), rule.suffix.as_slice()) {
                return Some(&rule.style);
            }
        }
        None
    }

    /// Get the ANSI style for a certain `Indicator` (regular file, directory,
    /// symlink, ...). Note that this function implements a fallback logic for
    /// some of the indicators (just like `ls`). For example, the style for
    /// `mi` (missing file) falls back to `or` (orphaned symbolic link) if it
    /// has not been specified explicitly, and from there to `ln` (symbolic
    /// link). The style of normal text stands in last.
    pub fn style_for_indicator(&self, indicator: Indicator) -> (style: Option<&Style>)
        ensures
            Style::copied(style) == self@.style_for_indicator(indicator),
    {
        if let Some(style) = self.indicator_mapping.get(&indicator.number()) {
            return Some(style);
        }
        let fallback = indicator.fallback_of();
        if let Some(style) = self.indicator_mapping.get(&fallback.number()) {
            return Some(style);
        }
        if let Some(style) = self.indicator_mapping.get(&fallback.fallback_of().number()) {
            return Some(style);
        }
        self.indicator_mapping.get(&Indicator::Normal.number())
    }
}

impl Clone for LsColors {
    /// A registry that holds what `self` holds.
    fn clone(&self) -> (copy: Self)
        ensures
            copy@ == self@,
    {
        proof {
            use_type_invariant(self);
        }
        let mut suffix_mapping: Vec<SuffixRule> = Vec::new();
        let mut k: usize = 0;
        while k < self.suffix_mapping.len()
            invariant
                k <= self.suffix_mapping.len(),
                suffixes_of(suffix_mapping@) =~= suffixes_of(self.suffix_mapping@).take(k as int),
            decreases self.suffix_mapping.len() - k,
        {
            let rule = &self.suffix_mapping[k];
            let suffix = rule.suffix.clone();
            assert(suffix@ =~= rule.suffix@);
            let ghost copied = suffixes_of(suffix_mapping@);
            let ghost all = suffixes_of(self.suffix_mapping@);
            suffix_mapping.push(SuffixRule { suffix, style: rule.style });
            assert(suffixes_of(suffix_mapping@) =~= copied.push((rule.suffix@, rule.style)));
            assert(all.take(k + 1) =~= all.take(k as int).push(all[k as int]));
            k += 1;
        }
        assert(suffixes_of(suffix_mapping@) =~= suffixes_of(self.suffix_mapping@));
        LsColors { indicator_mapping: self.indicator_mapping.clone(), suffix_mapping }
    }
}

impl Default for LsColors {
    /// Constructs a default `LsColors` instance with some default styles. See
    /// `man dircolors` for information about the default styles and colors.
    fn default() -> (lscolors: Self)
        ensures
            lscolors@ == LsColorsView::baseline(),
            lscolors@.indicators == default_indicators(),
            lscolors@.suffixes == default_suffixes(),
            lscolors@.suffixes_lowercase(),
    {
        let mut lscolors = LsColors::empty();
        lscolors.add_from_string(LS_COLORS_DEFAULT);
        proof {
            law_baseline();
        }
        lscolors
    }
}

/// What the two collections of a registry hold.
spec fn held(styles: Map<u8, Style>, rules: Seq<SuffixRule>) -> LsColorsView {
    LsColorsView { indicators: indicators_of(styles), suffixes: suffixes_of(rules) }
}

/// Applies one entry `key=value` of a configuration to the two collections of
/// a registry.
fn add_entry(indicators: &mut HashMap<u8, Style>, suffixes: &mut Vec<SuffixRule>, entry: &[char])
    requires
        held(old(indicators)@, old(suffixes)@).suffixes_lowercase(),
    ensures
        held(final(indicators)@, final(suffixes)@) == held(
            old(indicators)@,
            old(suffixes)@,
        ).with_entry(entry@),
        held(final(indicators)@, final(suffixes)@).suffixes_lowercase(),
{
    let ghost before = held(indicators@, suffixes@);
    assert(entry@.skip(0) =~= entry@);
    let at = match find(entry, 0, '=') {
        Some(at) => at,
        None => {
            return ;
        },
    };
    let key = slice_subrange(entry, 0, at);
    let value = slice_subrange(entry, at + 1, entry.len());
    let style = Style::from_ansi_chars(value);
    if key.len() > 0 && key[0] == '*' {
        if let Some(style) = style {
            let suffix = to_lowercase(slice_subrange(key, 1, key.len()));
            assert(lowercase(lowercase(key@.drop_first())) =~= lowercase(key@.drop_first()));
            suffixes.push(SuffixRule { suffix, style });
            assert(suffixes_of(suffixes@) =~= before.suffixes.push(
                (lowercase(key@.drop_first()), style),
            ));
        }
    } else if let Some(indicator) = Indicator::from_chars(key) {
        proof {
            assert forall|other: Indicator| other.index() == indicator.index() implies other
                == indicator by {
                other.lemma_index_distinct(indicator);
            }
        }
        if let Some(style) = style {
            indicators.insert(indicator.number(), style);
            assert(indicators_of(indicators@) =~= before.indicators.insert(indicator, style));
        } else {
            indicators.remove(&indicator.number());
            assert(indicators_of(indicators@) =~= before.indicators.remove(indicator));
        }
    }
}

} // verus!
