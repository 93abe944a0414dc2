use lscolors::path::ComponentKind::{CurDir, Normal, ParentDir, RootDir};
use lscolors::path::{file_name_span, parse_components, ComponentKind, SEPARATOR};
use lscolors::style::Color;
use lscolors::{FileType, LsColors, Metadata, StyledComponents};
use std::path::{Component, Path, MAIN_SEPARATOR};

fn parts(path: &str) -> Vec<(ComponentKind, String)> {
    let chars: Vec<char> = path.chars().collect();
    parse_components(&chars, SEPARATOR)
        .iter()
        .map(|c| (c.kind, chars[c.span.start..c.span.end].iter().collect()))
        .collect()
}

fn name(path: &str) -> Option<String> {
    let chars: Vec<char> = path.chars().collect();
    file_name_span(&chars, SEPARATOR).map(|span| chars[span.start..span.end].iter().collect())
}

fn collect(lscolors: &LsColors, path: &str) -> Vec<(String, Option<Color>)> {
    let mut walk = lscolors.style_for_path_components(path);
    let mut items = Vec::new();
    while let Some((text, style)) = walk.next() {
        items.push((text, style.and_then(|style| style.foreground)));
    }
    assert!(walk.next().is_none());
    assert!(walk.next_path().is_none());
    items
}

const PATHS: [&str; 30] = [
    "",
    "/",
    ".",
    "..",
    "a",
    "a/b",
    "a//b",
    "a/./b",
    "a/b/.",
    "a/b/",
    "a/b//",
    "./a/b",
    ".//a",
    "./.",
    "././a",
    "/a/b",
    "//a/b",
    "/./a",
    "/../a",
    "../a",
    "a/../b",
    "a/..",
    "...",
    ".a",
    "a.",
    "..a/b..",
    "foo/bar/test.md",
    "/usr/lib/x.tar.gz",
    "ä/漢字/ü.png",
    "a b/c d",
];

#[test]
fn components_of_paths() {
    let s = |text: &str| text.to_string();
    assert_eq!(Vec::<(ComponentKind, String)>::new(), parts(""));
    assert_eq!(vec![(RootDir, s("/"))], parts("/"));
    assert_eq!(vec![(CurDir, s("."))], parts("."));
    assert_eq!(vec![(ParentDir, s(".."))], parts(".."));
    assert_eq!(vec![(Normal, s("a")), (Normal, s("b"))], parts("a/b"));
    assert_eq!(vec![(Normal, s("a")), (Normal, s("b"))], parts("a//b/./"));
    assert_eq!(
        vec![(CurDir, s(".")), (Normal, s("a")), (Normal, s("b"))],
        parts("./a/b")
    );
    assert_eq!(
        vec![(RootDir, s("/")), (Normal, s("a")), (Normal, s("b"))],
        parts("//a/b")
    );
    assert_eq!(vec![(RootDir, s("/")), (Normal, s("a"))], parts("/./a"));
    assert_eq!(
        vec![(Normal, s("a")), (ParentDir, s("..")), (Normal, s("..."))],
        parts("a/../...")
    );
}

#[test]
fn components_agree_with_the_standard_library() {
    // the standard library takes these paths apart in the same way only where
    // its separator is the one of the paths
    if MAIN_SEPARATOR != SEPARATOR {
        return;
    }
    for path in PATHS {
        let expected: Vec<(ComponentKind, String)> = Path::new(path)
            .components()
            .map(|component| {
                let kind = match component {
                    Component::Prefix(_) | Component::RootDir => ComponentKind::RootDir,
                    Component::CurDir => ComponentKind::CurDir,
                    Component::ParentDir => ComponentKind::ParentDir,
                    Component::Normal(_) => ComponentKind::Normal,
                };
                (kind, component.as_os_str().to_str().unwrap().to_string())
            })
            .collect();
        assert_eq!(expected, parts(path));
    }
}

#[test]
fn file_name_is_the_last_name() {
    assert_eq!(Some("test.md".to_string()), name("foo/bar/test.md"));
    assert_eq!(Some("bar".to_string()), name("foo/bar/"));
    assert_eq!(Some("bar".to_string()), name("foo/bar/."));
    assert_eq!(Some("a".to_string()), name("/a"));
    assert_eq!(None, name("foo/.."));
    assert_eq!(None, name("/"));
    assert_eq!(None, name("."));
    assert_eq!(None, name(""));
    if MAIN_SEPARATOR != SEPARATOR {
        return;
    }
    for path in PATHS {
        let expected = Path::new(path)
            .file_name()
            .map(|name| name.to_str().unwrap().to_string());
        assert_eq!(expected, name(path));
    }
}

#[test]
fn path_components_of_a_relative_path() {
    let lscolors = LsColors::from_string("*.md=36:*bar=35");
    let items = collect(&lscolors, "foo/bar/test.md");
    assert_eq!(3, items.len());
    assert_eq!(("foo/".to_string(), None), items[0]);
    assert_eq!(("bar/".to_string(), Some(Color::Purple)), items[1]);
    assert_eq!(("test.md".to_string(), Some(Color::Cyan)), items[2]);
}

#[test]
fn path_components_concatenate_to_the_path() {
    let lscolors = LsColors::default();
    for path in ["foo/bar/test.md", "/usr/lib/x.tar.gz", "a", "/", "../a/..", "./x"] {
        let text: String = collect(&lscolors, path)
            .iter()
            .map(|(text, _)| text.as_str())
            .collect();
        assert_eq!(path, text);
    }
    // what is no component is left out
    let text: String = collect(&lscolors, "//a/./b//")
        .iter()
        .map(|(text, _)| text.as_str())
        .collect();
    assert_eq!("/a/b", text);
}

#[test]
fn path_components_of_an_absolute_path() {
    let lscolors = LsColors::from_string("fi=32:*.gz=31");
    let items = collect(&lscolors, "/usr/lib/x.tar.gz");
    assert_eq!(
        vec![
            ("/".to_string(), Some(Color::Green)),
            ("usr/".to_string(), Some(Color::Green)),
            ("lib/".to_string(), Some(Color::Green)),
            ("x.tar.gz".to_string(), Some(Color::Red)),
        ],
        items
    );
    assert_eq!(vec![("/".to_string(), Some(Color::Green))], collect(&lscolors, "/"));
    assert_eq!(Vec::<(String, Option<Color>)>::new(), collect(&lscolors, ""));
}

#[test]
fn path_components_ask_for_each_prefix() {
    if MAIN_SEPARATOR != SEPARATOR {
        return;
    }
    let lscolors = LsColors::default();
    for path in PATHS {
        let mut walk = lscolors.style_for_path_components(path);
        let mut prefix = std::path::PathBuf::new();
        for component in Path::new(path).components() {
            prefix.push(component.as_os_str());
            assert_eq!(prefix.to_str().map(str::to_string), walk.next_path());
            // asking twice changes nothing
            assert_eq!(prefix.to_str().map(str::to_string), walk.next_path());
            assert!(walk.next().is_some());
        }
        assert_eq!(None, walk.next_path());
        assert!(walk.next().is_none());
    }
}

#[test]
fn style_for_path_components() {
    let dir = Metadata {
        file_type: FileType::Directory,
        mode: 0o755,
        nlink: 2,
        target_exists: true,
    };
    let link = Metadata {
        file_type: FileType::SymbolicLink,
        mode: 0o777,
        nlink: 1,
        target_exists: true,
    };
    let file = Metadata {
        file_type: FileType::RegularFile,
        mode: 0o644,
        nlink: 1,
        target_exists: true,
    };
    let separator = MAIN_SEPARATOR;
    let path_via_symlink = format!(
        "{}tmp{}test-symlink{}test-file.png",
        separator, separator, separator
    );

    let lscolors = LsColors::from_string("di=34:ln=35:*.png=36");

    let mut walk = StyledComponents::with_separator(&lscolors, &path_via_symlink, separator);
    let mut components = Vec::new();
    for metadata in [&dir, &dir, &link, &file] {
        components.push(walk.next_with_metadata(Some(metadata)).unwrap());
    }
    assert!(walk.next_with_metadata(Some(&file)).is_none());

    let (c_file, style_file) = components.pop().unwrap();
    assert_eq!("test-file.png", c_file);
    assert_eq!(Some(Color::Cyan), style_file.unwrap().foreground);

    let (c_symlink, style_symlink) = components.pop().unwrap();
    let mut expected_symlink_name = String::from("test-symlink");
    expected_symlink_name.push(MAIN_SEPARATOR);
    assert_eq!(expected_symlink_name, c_symlink);
    assert_eq!(
        Some(Color::Purple),
        style_symlink.cloned().and_then(|style| style.foreground)
    );

    let (c_dir, style_dir) = components.pop().unwrap();
    assert_eq!(format!("tmp{}", separator), c_dir);
    assert_eq!(Some(Color::Blue), style_dir.unwrap().foreground);

    let (c_root, style_root) = components.pop().unwrap();
    assert_eq!(separator.to_string(), c_root);
    assert_eq!(Some(Color::Blue), style_root.unwrap().foreground);
}

#[test]
fn walk_with_another_separator() {
    let lscolors = LsColors::from_string("*.md=36:*bar=35:fi=32");
    let mut walk = StyledComponents::with_separator(&lscolors, "\\foo\\.\\bar\\\\test.md", '\\');
    let mut items = Vec::new();
    let mut paths = Vec::new();
    while let Some(path) = walk.next_path() {
        paths.push(path);
        let (text, style) = walk.next().unwrap();
        items.push((text, style.and_then(|style| style.foreground)));
    }
    assert_eq!(
        vec![
            ("\\".to_string(), Some(Color::Green)),
            ("foo\\".to_string(), Some(Color::Green)),
            ("bar\\".to_string(), Some(Color::Purple)),
            ("test.md".to_string(), Some(Color::Cyan)),
        ],
        items
    );
    assert_eq!(
        vec!["\\", "\\foo", "\\foo\\bar", "\\foo\\bar\\test.md"],
        paths
    );
    assert!(walk.next().is_none());

    // the other character is no separator then
    let mut walk = StyledComponents::with_separator(&lscolors, "foo/bar\\a/b.md", '\\');
    assert_eq!("foo/bar\\", walk.next().unwrap().0);
    assert_eq!("a/b.md", walk.next().unwrap().0);
    assert!(walk.next().is_none());

    let mut walk = StyledComponents::with_separator(&lscolors, "a:b::c", ':');
    assert_eq!("a:", walk.next().unwrap().0);
    assert_eq!("b:", walk.next().unwrap().0);
    assert_eq!("c", walk.next().unwrap().0);
    assert!(walk.next().is_none());
}

#[test]
fn components_with_another_separator() {
    let chars: Vec<char> = "\\a\\..\\b/c\\".chars().collect();
    let found: Vec<(ComponentKind, String)> = parse_components(&chars, '\\')
        .iter()
        .map(|c| (c.kind, chars[c.span.start..c.span.end].iter().collect()))
        .collect();
    assert_eq!(
        vec![
            (RootDir, "\\".to_string()),
            (Normal, "a".to_string()),
            (ParentDir, "..".to_string()),
            (Normal, "b/c".to_string()),
        ],
        found
    );
    let name = file_name_span(&chars, '\\').unwrap();
    assert_eq!("b/c", chars[name.start..name.end].iter().collect::<String>());
    let chars: Vec<char> = "a\\..".chars().collect();
    assert!(file_name_span(&chars, '\\').is_none());
    // with another separator the same text is a name
    assert!(file_name_span(&chars, SEPARATOR).is_some());
}

#[test]
fn style_for_separated_path_takes_the_name_behind_the_separator() {
    let lscolors = LsColors::from_string("*sub\\a.rs=31:*.rs=32:fi=34");
    assert_eq!(
        Some(Color::Green),
        lscolors
            .style_for_separated_path("dir\\sub\\a.rs", '\\', None)
            .unwrap()
            .foreground
    );
    // the same with `/` between the components
    assert_eq!(
        Some(Color::Green),
        lscolors
            .style_for_separated_path("dir/sub/a.rs", '/', None)
            .unwrap()
            .foreground
    );
    let lscolors = LsColors::from_string("*.rs=32:*sub\\a.rs=31:fi=34");
    assert_eq!(
        Some(Color::Green),
        lscolors
            .style_for_separated_path("dir\\sub\\a.rs", '\\', None)
            .unwrap()
            .foreground
    );
    // with `/` as the separator the whole text is the name
    assert_eq!(
        Some(Color::Red),
        lscolors
            .style_for_path_with_metadata("dir\\sub\\a.rs", None)
            .unwrap()
            .foreground
    );
    assert_eq!(
        Some(Color::Blue),
        lscolors
            .style_for_separated_path("dir\\..", '\\', None)
            .unwrap()
            .foreground
    );
}

#[test]
fn a_fresh_walk_starts_again() {
    let lscolors = LsColors::from_string("*.md=36");
    let first = collect(&lscolors, "foo/bar/test.md");
    let second = collect(&lscolors, "foo/bar/test.md");
    assert_eq!(first, second);
    assert_eq!(3, second.len());
}

#[test]
fn separator_behind_a_component() {
    for kind in [CurDir, ParentDir, Normal] {
        assert!(kind.takes_separator(false));
        assert!(!kind.takes_separator(true));
    }
    assert!(!RootDir.takes_separator(false));
    assert!(!RootDir.takes_separator(true));
}

#[test]
fn a_file_name_alone_is_a_path_with_that_name() {
    let lscolors = LsColors::from_string("*.rs=31");
    for path in ["main.rs", "MAIN.RS", ".rs", "a b.rs"] {
        assert_eq!(Some(path.to_string()), name(path));
        assert_eq!(
            Some(Color::Red),
            lscolors.style_for_path(path).unwrap().foreground
        );
    }
}
