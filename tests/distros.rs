use owo_colors::{AnsiColors, DynColors};
use punfetch::catalog::{Catalog, CatalogError, DistroRecord};
use punfetch::distros::Distro;
use punfetch::matcher::{classify, last_match, normalize};
use punfetch::printer::{interleave, Info, Printer};
use punfetch::text::stripped_width;

/// The text of `s` without its terminal escape sequences.
fn visible(s: &str) -> String {
    let mut out = String::new();
    let mut in_escape = false;
    for c in s.chars() {
        if in_escape {
            if c == 'm' {
                in_escape = false;
            }
        } else if c == '\u{1b}' {
            in_escape = true;
        } else {
            out.push(c);
        }
    }
    out
}

/// Ensure some common distros with extra data in them will match correctly
#[test]
fn search() {
    const DISTROS: [(Distro, &str); 10] = [
        (Distro::MANJARO, "Manjaro Linux"),
        (Distro::ARCH, "Arch Linux"),
        (Distro::UBUNTU, "Ubuntu 20.04.1 LTS"),
        (Distro::DEBIAN, "Debian GNU/Linux 10 (buster)"),
        (Distro::GENTOO, "Gentoo Base System release 2.7"),
        (Distro::FEDORA, "Fedora 33 (Thirty Three)"),
        (Distro::CENTOS, "CentOS Linux 8 (Core)"),
        (Distro::OPENSUSELEAP, "openSUSE Leap 15.2"),
        (Distro::VOID, "Void 5.8.14_1 x86_64"),
        (Distro::DEFAULT, "Unknown"),
    ];

    for (distro, name) in DISTROS.iter() {
        assert_eq!(*distro, Distro::search(name));
    }
}

/// Ensure some common distros with extra data in them will match correctly
#[test]
fn test_search() {
    let manjaro = Distro::search("Manjaro Linux");
    assert_eq!(manjaro, Distro::MANJARO);

    let arch = Distro::search("Arch Linux");
    assert_eq!(arch, Distro::ARCH);

    let ubuntu = Distro::search("Ubuntu 20.04.1 LTS");
    assert_eq!(ubuntu, Distro::UBUNTU);

    let debian = Distro::search("Debian GNU/Linux 10 (buster)");
    assert_eq!(debian, Distro::DEBIAN);

    let fedora = Distro::search("Fedora 33 (Thirty Three)");
    assert_eq!(fedora, Distro::FEDORA);

    let centos = Distro::search("CentOS Linux 8 (Core)");
    assert_eq!(centos, Distro::CENTOS);

    // the last registered match wins: openSUSE Leap comes after openSUSE
    let opensuse = Distro::search("openSUSE Leap 15.2");
    assert_eq!(opensuse, Distro::OPENSUSELEAP);

    let gentoo = Distro::search("Gentoo Base System release 2.7");
    assert_eq!(gentoo, Distro::GENTOO);

    let void = Distro::search("Void 5.8.14_1 x86_64 MUSL");
    assert_eq!(void, Distro::VOID);
}

#[test]
fn ascii() {
    let distro = Distro::search("Arch Linux");
    assert_ne!(distro, Distro::DEFAULT);
    let ascii = distro.ascii(Some(true));
    for line in ascii.lines {
        println!("{line}")
    }
}

#[test]
fn search_more_names() {
    let cases = [
        (Distro::ARCH, "Arch"),
        (Distro::MINT, "Linux Mint"),
        (Distro::POPOS, "Pop!_OS"),
        (Distro::SOLUS, "Solus"),
        (Distro::ELEMENTARY, "elementary OS"),
        (Distro::OPENSUSETUMBLEWEED, "openSUSE Tumbleweed"),
        (Distro::OPENSUSE, "openSUSE 15"),
        (Distro::VOID, "Void 5.8.14_1 x86_64 MUSL"),
        (Distro::DEFAULT, "completely unknown string"),
        (Distro::DEFAULT, ""),
    ];
    for (distro, name) in cases.iter() {
        assert_eq!(*distro, Distro::search(name), "{name}");
    }
}

#[test]
fn every_catalog_name_finds_itself() {
    for i in 0..15 {
        let d = Distro::at(i);
        assert_eq!(Distro::search(d.name()), d);
        assert_eq!(normalize(d.name()), d.pattern());
    }
    assert_eq!(Distro::search("arch_LINUX"), Distro::search("ARCH"));
}

#[test]
fn normalize_strips_lowers_and_drops_linux() {
    assert_eq!(normalize("Debian GNU/Linux 10 (buster)"), "debiangnu10(buster)");
    assert_eq!(normalize("Pop!_OS"), "popos");
    assert_eq!(normalize("a\tb\u{a0}c@d.e-f_g"), "abcdefg");
    assert_eq!(normalize("LINUXlinux Mint"), "mint");
    assert_eq!(normalize("lilinuxnux"), "linux");
}

#[test]
fn tie_break_prefers_last_registered_pattern() {
    let patterns = vec!["ab".to_string(), "abc".to_string(), "zz".to_string()];
    assert_eq!(classify(&patterns, "ABCD"), Some(1));
    let reversed = vec!["abc".to_string(), "ab".to_string()];
    assert_eq!(classify(&reversed, "abcd"), Some(1));
    assert_eq!(classify(&patterns, "xyz"), None);
    assert_eq!(last_match(&vec![0, 2, 5]), Some(5));
    assert_eq!(last_match(&vec![]), None);
}

#[test]
fn regex_patterns_in_synthetic_catalog() {
    let first = DistroRecord::new("One", "{0}x", vec![], vec![], Some("(foo|bar)"));
    let second = DistroRecord::new("Two", "{0}yy", vec![], vec![], None);
    let fallback = DistroRecord::new("Other", "{0}?", vec![], vec![], None);
    let catalog = Catalog { records: vec![first, second], fallback };
    assert_eq!(catalog.classify("Bar 1"), Some(0));
    assert_eq!(catalog.classify("Two Bar"), Some(1));
    assert_eq!(catalog.search("nothing").name, "Other");
    assert_eq!(catalog.records[1].pattern, "two");
}

#[test]
fn stripped_width_ignores_tokens() {
    assert_eq!(stripped_width("{0}abc{1}de\n{2}x"), 5);
    assert_eq!(stripped_width("ab\n{10}{3}abcdef{0}\n"), 6);
    assert_eq!(stripped_width("{x}{}{12"), 8);
    assert_eq!(stripped_width("abc\r\nab"), 3);
    assert_eq!(stripped_width(""), 0);
    assert_eq!(stripped_width("{0}\n{1}\n"), 0);
}

#[test]
fn record_width_is_computed_once_from_template() {
    let rec = DistroRecord::new("Test OS", "{0}  ab{1}c\n{1}abcd{0}ef", vec![], vec![], None);
    assert_eq!(rec.stripped_width, 6);
    assert_eq!(rec.pattern, "testos");
    assert_eq!(rec.ansi, vec![DynColors::Ansi(AnsiColors::Default)]);
}

#[test]
fn palettes_by_color_mode() {
    let d = Distro::FEDORA;
    assert_eq!(d.colors(None), vec![]);
    assert_eq!(d.colors(Some(false)), vec![DynColors::Ansi(AnsiColors::Blue)]);
    assert_eq!(d.colors(Some(true)), vec![DynColors::Rgb(60, 110, 180)]);
    assert_eq!(d.color(Some(true)), DynColors::Rgb(60, 110, 180));
    assert_eq!(d.color(None), DynColors::Ansi(AnsiColors::Default));
    assert_eq!(Distro::DEFAULT.color(Some(true)), DynColors::Ansi(AnsiColors::Default));
}

#[test]
fn rendering_twice_is_identical() {
    for mode in [Some(true), Some(false), None] {
        let a = Distro::UBUNTU.ascii(mode);
        let b = Distro::UBUNTU.ascii(mode);
        assert_eq!(a.lines, b.lines);
        assert_eq!(a.width, b.width);
        let rec = Distro::UBUNTU.record();
        assert_eq!(rec.ascii(mode).lines, a.lines);
    }
}

#[test]
fn art_lines_pad_to_width_and_color_when_asked() {
    let plain = Distro::ARCH.ascii(None);
    assert_eq!(plain.width, 14);
    assert_eq!(plain.lines.len(), 7);
    for line in &plain.lines {
        assert!(!line.contains(";1m"));
        assert_eq!(visible(line).chars().count(), plain.width);
    }
    assert_eq!(visible(&plain.lines[6]), "/_-''    ''-_\\");
    let colored = Distro::ARCH.ascii(Some(true));
    assert!(colored.lines[0].contains("38;2;23;147;209;1m"));
    let ansi = Distro::ARCH.ascii(Some(false));
    assert!(ansi.lines[0].contains("36;1m"));
}

#[test]
fn interleave_pads_rows() {
    let art = vec!["AA".to_string(), "BB".to_string()];
    let info = vec!["x".to_string(), "y".to_string(), "z".to_string()];
    let rows = interleave(&art, 2, &info);
    assert_eq!(rows, vec!["  AA  x", "  BB  y", "      z"]);
    let rows = interleave(&art, 2, &vec!["x".to_string()]);
    assert_eq!(rows, vec!["  AA  x", "  BB"]);
    let rows = interleave(&vec![], 3, &vec![]);
    assert!(rows.is_empty());
}

#[test]
fn fedora_end_to_end() {
    let distro = Distro::search("Fedora 33 (Thirty Three)");
    assert_eq!(distro, Distro::FEDORA);
    let mut printer = Printer::new(Some(true));
    printer.with_distro(distro);
    let info: Vec<String> = (0..12).map(|i| format!("line {i}")).collect();
    printer.with_info(Info::Lines(info.clone()));
    assert_eq!(printer.main_color(), DynColors::Rgb(60, 110, 180));
    let out = printer.render();
    let art = distro.ascii(Some(true));
    let width = art.width;
    assert_eq!(width, 14);
    let rows: Vec<&str> = out.lines().collect();
    assert_eq!(rows.len(), 12);
    for (i, row) in rows.iter().enumerate() {
        if i < art.lines.len() {
            assert!(art.lines[i].contains(";1m"));
            assert_eq!(visible(&art.lines[i]).chars().count(), width);
            assert_eq!(*row, format!("  {}  {}", art.lines[i], info[i]));
        } else {
            assert_eq!(*row, format!("  {}  {}", " ".repeat(width), info[i]));
        }
    }
}

#[test]
fn text_only_printer() {
    let mut printer = Printer::new(None);
    printer.with_info(Info::Lines(vec!["a".to_string(), "b".to_string()]));
    printer.with_color(DynColors::Ansi(AnsiColors::Red));
    assert_eq!(printer.render(), "a\nb\n");
    assert_eq!(printer.main_color(), DynColors::Ansi(AnsiColors::Red));
    assert_eq!(Printer::new(None).main_color(), DynColors::Ansi(AnsiColors::Default));
}

#[test]
fn builtin_catalog_is_valid() {
    let catalog = Distro::catalog();
    assert_eq!(catalog.records.len(), 15);
    assert_eq!(catalog.validate(), Ok(()));
    for i in 0..15 {
        let rec = &catalog.records[i];
        assert_eq!(rec.stripped_width, stripped_width(&rec.template));
    }
}

#[test]
fn faulty_records_are_reported() {
    let empty = DistroRecord::new("A", "", vec![], vec![], None);
    assert_eq!(empty.validate(), Err(CatalogError::MissingTemplate));
    let past_ansi = DistroRecord::new("B", "{0}x{1}y", vec![], vec![], None);
    assert_eq!(past_ansi.validate(), Err(CatalogError::PaletteIndex));
    let past_hex = DistroRecord::new(
        "C",
        "{0}x{1}y",
        vec![DynColors::Ansi(AnsiColors::Red), DynColors::Ansi(AnsiColors::Blue)],
        vec![DynColors::Rgb(1, 2, 3)],
        None,
    );
    assert_eq!(past_hex.validate(), Err(CatalogError::PaletteIndex));
    let huge = DistroRecord::new("D", "{99999999999999999999999}x", vec![], vec![], None);
    assert_eq!(huge.validate(), Err(CatalogError::PaletteIndex));
    let fine = DistroRecord::new("E", "{0}x{}{1a}", vec![], vec![], None);
    assert_eq!(fine.validate(), Ok(()));
    let margin = DistroRecord::new("F", "{0} ab\n{0}  c", vec![], vec![], None);
    assert_eq!(margin.validate(), Err(CatalogError::Misaligned));
    let trailing = DistroRecord::new("G", "{0}ab \r\n{0}c", vec![], vec![], None);
    assert_eq!(trailing.validate(), Err(CatalogError::Misaligned));
    let blank_line = DistroRecord::new("H", "{0}ab\n\n{0}  c\n", vec![], vec![], None);
    assert_eq!(blank_line.validate(), Ok(()));
    let catalog = Catalog {
        records: vec![fine, past_ansi],
        fallback: empty,
    };
    assert_eq!(catalog.validate(), Err((Some(1), CatalogError::PaletteIndex)));
}
