use lscolors::text::{chars_of, ends_with, find, parse_byte, split_spans, to_lower, to_lowercase};

fn chars(s: &str) -> Vec<char> {
    s.chars().collect()
}

fn pieces(s: &str, sep: char) -> Vec<String> {
    let all = chars(s);
    split_spans(&all, sep)
        .iter()
        .map(|span| all[span.start..span.end].iter().collect())
        .collect()
}

#[test]
fn chars_of_keeps_every_character() {
    assert_eq!(vec!['a', ':', 'é', '漢'], chars_of("a:é漢"));
    assert_eq!(Vec::<char>::new(), chars_of(""));
}

#[test]
fn find_first_separator() {
    let s = chars("ab:cd:e");
    assert_eq!(Some(2), find(&s, 0, ':'));
    assert_eq!(Some(2), find(&s, 2, ':'));
    assert_eq!(Some(5), find(&s, 3, ':'));
    assert_eq!(None, find(&s, 6, ':'));
    assert_eq!(None, find(&s, 7, ':'));
    assert_eq!(None, find(&s, 0, '='));
}

#[test]
fn split_has_one_more_piece_than_separators() {
    assert_eq!(vec![""], pieces("", ':'));
    assert_eq!(vec!["abc"], pieces("abc", ':'));
    assert_eq!(vec!["a", "b"], pieces("a:b", ':'));
    assert_eq!(vec!["", ""], pieces(":", ':'));
    assert_eq!(vec!["a", "", "b", ""], pieces("a::b:", ':'));
    assert_eq!(vec!["", "a", "b=c"], pieces(":a:b=c", ':'));
}

#[test]
fn lowercase_changes_ascii_letters_only() {
    assert_eq!('a', to_lower('A'));
    assert_eq!('z', to_lower('Z'));
    assert_eq!('m', to_lower('m'));
    assert_eq!('@', to_lower('@'));
    assert_eq!('[', to_lower('['));
    assert_eq!('É', to_lower('É'));
    assert_eq!(chars("readme.foo-É1"), to_lowercase(&chars("README.Foo-É1")));
    for c in ['A', 'Q', 'Z', 'a', '0', '.', 'É', 'Σ'] {
        assert_eq!(c.to_ascii_lowercase(), to_lower(c));
    }
}

#[test]
fn ends_with_compares_the_end() {
    assert!(ends_with(&chars("archive.tar.gz"), &chars(".gz")));
    assert!(ends_with(&chars("archive.tar.gz"), &chars("archive.tar.gz")));
    assert!(ends_with(&chars("archive.tar.gz"), &chars("")));
    assert!(ends_with(&chars(""), &chars("")));
    assert!(!ends_with(&chars("archive.tar.gz"), &chars(".tar")));
    assert!(!ends_with(&chars("gz"), &chars(".gz")));
    assert!(!ends_with(&chars("archive.tar.gz"), &chars("xarchive.tar.gz")));
    assert!(!ends_with(&chars("a.GZ"), &chars(".gz")));
}

#[test]
fn parse_byte_reads_decimal() {
    assert_eq!(Some(0), parse_byte(&chars("0")));
    assert_eq!(Some(0), parse_byte(&chars("00")));
    assert_eq!(Some(7), parse_byte(&chars("007")));
    assert_eq!(Some(255), parse_byte(&chars("255")));
    assert_eq!(Some(255), parse_byte(&chars("+255")));
    assert_eq!(Some(255), parse_byte(&chars("0000000000000000000000000255")));
    assert_eq!(None, parse_byte(&chars("256")));
    assert_eq!(None, parse_byte(&chars("2550")));
    assert_eq!(None, parse_byte(&chars("99999999999999999999999")));
    assert_eq!(None, parse_byte(&chars("")));
    assert_eq!(None, parse_byte(&chars("+")));
    assert_eq!(None, parse_byte(&chars("-")));
    assert_eq!(None, parse_byte(&chars("-0")));
    assert_eq!(None, parse_byte(&chars("1+")));
    assert_eq!(None, parse_byte(&chars("12a")));
    assert_eq!(None, parse_byte(&chars("a12")));
    assert_eq!(None, parse_byte(&chars("1_0")));
    assert_eq!(None, parse_byte(&chars("१")));
}

#[test]
fn parse_byte_agrees_with_the_standard_parser() {
    let mut texts: Vec<String> = Vec::new();
    for n in 0..300u32 {
        texts.push(format!("{}", n));
        texts.push(format!("+{}", n));
        texts.push(format!("0{}", n));
        texts.push(format!("{}x", n));
    }
    for text in texts {
        assert_eq!(text.parse::<u8>().ok(), parse_byte(&chars(&text)));
    }
}
