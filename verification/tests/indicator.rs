use lscolors::Indicator;

const KEYS: [(&str, Indicator); 24] = [
    ("no", Indicator::Normal),
    ("fi", Indicator::RegularFile),
    ("di", Indicator::Directory),
    ("ln", Indicator::SymbolicLink),
    ("pi", Indicator::FIFO),
    ("so", Indicator::Socket),
    ("do", Indicator::Door),
    ("bd", Indicator::BlockDevice),
    ("cd", Indicator::CharacterDevice),
    ("or", Indicator::OrphanedSymbolicLink),
    ("su", Indicator::Setuid),
    ("sg", Indicator::Setgid),
    ("st", Indicator::Sticky),
    ("ow", Indicator::OtherWritable),
    ("tw", Indicator::StickyAndOtherWritable),
    ("ex", Indicator::ExecutableFile),
    ("mi", Indicator::MissingFile),
    ("ca", Indicator::Capabilities),
    ("mh", Indicator::MultipleHardLinks),
    ("lc", Indicator::LeftCode),
    ("rc", Indicator::RightCode),
    ("ec", Indicator::EndCode),
    ("rs", Indicator::Reset),
    ("cl", Indicator::ClearLine),
];

#[test]
fn every_key_names_its_indicator() {
    for (key, indicator) in KEYS {
        assert_eq!(Some(indicator), Indicator::from(key));
        let chars: Vec<char> = key.chars().collect();
        assert_eq!(Some(indicator), Indicator::from_chars(&chars));
    }
}

#[test]
fn other_texts_name_no_indicator() {
    for text in ["", "d", "dir", "DI", "Di", "xx", "*.", "d ", " di", "di=", "né"] {
        assert_eq!(None, Indicator::from(text));
    }
}

#[test]
fn numbers_follow_the_declaration() {
    for (n, (_, indicator)) in KEYS.iter().enumerate() {
        assert_eq!(n, indicator.number() as usize);
    }
}

#[test]
fn fallback_table() {
    for (_, indicator) in KEYS {
        let expected = match indicator {
            Indicator::Setuid
            | Indicator::Setgid
            | Indicator::ExecutableFile
            | Indicator::MultipleHardLinks => Indicator::RegularFile,
            Indicator::StickyAndOtherWritable | Indicator::OtherWritable | Indicator::Sticky => {
                Indicator::Directory
            }
            Indicator::OrphanedSymbolicLink => Indicator::SymbolicLink,
            Indicator::MissingFile => Indicator::OrphanedSymbolicLink,
            other => other,
        };
        assert_eq!(expected, indicator.fallback_of());
    }
}

#[test]
fn fallback_closes_after_two_steps() {
    for (_, indicator) in KEYS {
        let twice = indicator.fallback_of().fallback_of();
        assert_eq!(twice, twice.fallback_of());
    }
    assert_eq!(
        Indicator::SymbolicLink,
        Indicator::MissingFile.fallback_of().fallback_of()
    );
}
