use provola::lang::{extensions, lookup};
use provola::Language;
use std::path::{Path, PathBuf};

#[test]
fn lang_from_string_to_string() {
    for lang in Language::all() {
        let s = lang.to_string();
        let l = Language::from_str(&s).expect(&s);
        assert_eq!(lang, l);
    }
}

#[test]
fn lang_from_source() {
    assert_eq!(
        Language::from_source(&PathBuf::from("foo.rs")),
        Some(Language::Rust)
    );
    assert_eq!(
        Language::from_source(&PathBuf::from("foo.hs")),
        Some(Language::Haskell)
    );
}

#[test]
fn all_lists_every_language_once() {
    let all = Language::all();
    assert_eq!(all.len(), 28);
    assert_eq!(all[0], Language::Ada);
    assert_eq!(all[4], Language::CPlusPlus);
    assert_eq!(all[27], Language::VBA);
    for (i, a) in all.iter().enumerate() {
        for b in all.iter().skip(i + 1) {
            assert_ne!(a, b);
        }
    }
}

#[test]
fn display_spellings() {
    assert_eq!(Language::Ada.to_string(), "Ada");
    assert_eq!(Language::Bash.to_string(), "bash");
    assert_eq!(Language::CPlusPlus.to_string(), "C++");
    assert_eq!(Language::CSharp.to_string(), "C#");
    assert_eq!(Language::FSharp.to_string(), "f#");
    assert_eq!(Language::ObjectiveC.to_string(), "ObjectiveC");
    assert_eq!(Language::TypeScript.to_string(), "TypeScript");
    assert_eq!(Language::VBA.to_string(), "VBA");
}

#[test]
fn every_alias_is_recognised() {
    let table = [
        ("ada", Language::Ada),
        ("bash", Language::Bash),
        ("c", Language::C),
        ("caml", Language::Caml),
        ("cpp", Language::CPlusPlus),
        ("c++", Language::CPlusPlus),
        ("cxx", Language::CPlusPlus),
        ("cplusplus", Language::CPlusPlus),
        ("c#", Language::CSharp),
        ("csharp", Language::CSharp),
        ("clojure", Language::Clojure),
        ("dart", Language::Dart),
        ("elixir", Language::Elixir),
        ("erlang", Language::Erlang),
        ("f#", Language::FSharp),
        ("fsharp", Language::FSharp),
        ("go", Language::Go),
        ("groovy", Language::Groovy),
        ("haskell", Language::Haskell),
        ("java", Language::Java),
        ("javascript", Language::JavaScript),
        ("kotlin", Language::Kotlin),
        ("lisp", Language::Lisp),
        ("objectivec", Language::ObjectiveC),
        ("php", Language::PHP),
        ("python", Language::Python),
        ("r", Language::R),
        ("ruby", Language::Ruby),
        ("rust", Language::Rust),
        ("scala", Language::Scala),
        ("swift", Language::Swift),
        ("typescript", Language::TypeScript),
        ("vba", Language::VBA),
    ];
    for (alias, lang) in table {
        assert_eq!(Language::from_lowercase(alias), Ok(lang));
        assert_eq!(Language::from_str(alias), Ok(lang));
        assert_eq!(Language::from_str(&alias.to_uppercase()), Ok(lang));
    }
}

#[test]
fn parsing_ignores_case() {
    assert_eq!(Language::from_str("RUST"), Ok(Language::Rust));
    assert_eq!(Language::from_str("rUsT"), Ok(Language::Rust));
    assert_eq!(Language::from_str("CPlusPlus"), Ok(Language::CPlusPlus));
    assert_eq!(Language::from_str("CXX"), Ok(Language::CPlusPlus));
    assert_eq!(Language::from_str("FSharp"), Ok(Language::FSharp));
    assert_eq!(Language::from_str("F#"), Ok(Language::FSharp));
}

#[test]
fn parsing_lowers_letters_beyond_ascii() {
    // U+212A, the Kelvin sign, has the small letter k as its lowercase form.
    assert_eq!(Language::from_str("\u{212A}otlin"), Ok(Language::Kotlin));
}

#[test]
fn from_lowercase_takes_lowercase_only() {
    assert_eq!(Language::from_lowercase("rust"), Ok(Language::Rust));
    assert_eq!(
        Language::from_lowercase("Rust"),
        Err("Invalid language".to_string())
    );
}

#[test]
fn unknown_spellings_are_invalid() {
    for s in ["", " ", "rust ", " rust", "rs", "c--", "objective-c", "golang", "cp"] {
        assert_eq!(Language::from_str(s), Err("Invalid language".to_string()));
    }
}

#[test]
fn source_without_known_extension_has_no_language() {
    assert_eq!(Language::from_source(Path::new("foo")), None);
    assert_eq!(Language::from_source(Path::new("foo.unknown")), None);
    assert_eq!(Language::from_source(Path::new("")), None);
    assert_eq!(Language::from_source(Path::new(".rs")), None);
    assert_eq!(Language::from_source(Path::new("foo.")), None);
    assert_eq!(Language::from_source(Path::new("rs")), None);
}

#[test]
fn source_extension_is_the_final_one() {
    assert_eq!(
        Language::from_source(Path::new("foo.hs.rs")),
        Some(Language::Rust)
    );
    assert_eq!(
        Language::from_source(Path::new("foo.rs.hs")),
        Some(Language::Haskell)
    );
    assert_eq!(Language::from_source(Path::new("foo.rs.txt")), None);
    assert_eq!(
        Language::from_source(Path::new("dir.d/sub/script.sh")),
        Some(Language::Bash)
    );
    assert_eq!(Language::from_source(Path::new("dir.rs/file")), None);
}

#[test]
fn source_extension_is_matched_exactly() {
    assert_eq!(Language::from_source(Path::new("foo.RS")), None);
    assert_eq!(Language::from_source(Path::new("foo.Rs")), None);
    assert_eq!(Language::from_source(Path::new("foo.rss")), None);
}

#[test]
fn several_extensions_share_a_language() {
    assert_eq!(Language::from_source(Path::new("a.c")), Some(Language::C));
    assert_eq!(Language::from_source(Path::new("a.c++")), Some(Language::C));
    assert_eq!(Language::from_source(Path::new("a.cxx")), Some(Language::C));
}

#[test]
fn from_extension_reads_the_table() {
    assert_eq!(Language::from_extension("sh"), Some(Language::Bash));
    assert_eq!(Language::from_extension("c"), Some(Language::C));
    assert_eq!(Language::from_extension("c++"), Some(Language::C));
    assert_eq!(Language::from_extension("cxx"), Some(Language::C));
    assert_eq!(Language::from_extension("hs"), Some(Language::Haskell));
    assert_eq!(Language::from_extension("rs"), Some(Language::Rust));
    assert_eq!(Language::from_extension(""), None);
    assert_eq!(Language::from_extension(".rs"), None);
    assert_eq!(Language::from_extension("py"), None);
}

#[test]
fn extensions_in_lookup_order() {
    assert_eq!(
        extensions(),
        vec![
            ("sh", Language::Bash),
            ("c", Language::C),
            ("c++", Language::C),
            ("cxx", Language::C),
            ("hs", Language::Haskell),
            ("rs", Language::Rust),
        ]
    );
}

#[test]
fn lookup_first_match_wins() {
    let table = vec![
        ("h", Language::C),
        ("h", Language::CPlusPlus),
        ("m", Language::ObjectiveC),
    ];
    assert_eq!(lookup(&table, "h"), Some(Language::C));
    assert_eq!(lookup(&table, "m"), Some(Language::ObjectiveC));
    assert_eq!(lookup(&table, "H"), None);
    assert_eq!(lookup(&[], "h"), None);
    let swapped = vec![("h", Language::CPlusPlus), ("h", Language::C)];
    assert_eq!(lookup(&swapped, "h"), Some(Language::CPlusPlus));
}

#[test]
fn parse_through_the_trait() {
    assert_eq!("Haskell".parse::<Language>(), Ok(Language::Haskell));
    assert_eq!("TYPESCRIPT".parse::<Language>(), Ok(Language::TypeScript));
    assert_eq!(
        "cobol".parse::<Language>(),
        Err("Invalid language".to_string())
    );
}
