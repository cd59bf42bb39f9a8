use crate::text::{ascii_lowercase, lowercase, str_eq, to_lowercase};
use std::path::Path;
use std::str::FromStr;
use vstd::prelude::*;
use vstd::utf8::is_ascii_chars;

verus! {

/// The programming languages that a source can be written in.
#[derive(Debug, Copy, Clone, PartialEq, Eq, Structural)]
pub enum Language {
    Ada,
    Bash,
    C,
    Caml,
    CPlusPlus,
    CSharp,
    Clojure,
    Dart,
    Elixir,
    Erlang,
    FSharp,
    Go,
    Groovy,
    Haskell,
    Java,
    JavaScript,
    Kotlin,
    Lisp,
    ObjectiveC,
    PHP,
    Python,
    R,
    Ruby,
    Rust,
    Scala,
    Swift,
    TypeScript,
    VBA,
}

impl Language {
    /// Every language, in the order of declaration.
    pub open spec fn variants() -> Seq<Language> {
        seq![
            Language::Ada,
            Language::Bash,
            Language::C,
            Language::Caml,
            Language::CPlusPlus,
            Language::CSharp,
            Language::Clojure,
            Language::Dart,
            Language::Elixir,
            Language::Erlang,
            Language::FSharp,
            Language::Go,
            Language::Groovy,
            Language::Haskell,
            Language::Java,
            Language::JavaScript,
            Language::Kotlin,
            Language::Lisp,
            Language::ObjectiveC,
            Language::PHP,
            Language::Python,
            Language::R,
            Language::Ruby,
            Language::Rust,
            Language::Scala,
            Language::Swift,
            Language::TypeScript,
            Language::VBA,
        ]
    }

    /// Every language, in the order of declaration.
    pub fn all() -> (langs: Vec<Language>)
        ensures
            langs@ == Language::variants(),
    {
        let langs = vec![
            Language::Ada,
            Language::Bash,
            Language::C,
            Language::Caml,
            Language::CPlusPlus,
            Language::CSharp,
            Language::Clojure,
            Language::Dart,
            Language::Elixir,
            Language::Erlang,
            Language::FSharp,
            Language::Go,
            Language::Groovy,
            Language::Haskell,
            Language::Java,
            Language::JavaScript,
            Language::Kotlin,
            Language::Lisp,
            Language::ObjectiveC,
            Language::PHP,
            Language::Python,
            Language::R,
            Language::Ruby,
            Language::Rust,
            Language::Scala,
            Language::Swift,
            Language::TypeScript,
            Language::VBA,
        ];
        assert(langs@ =~= Language::variants());
        langs
    }

    /// The canonical spelling of the language, as it is shown to a user.
    pub open spec fn display(self) -> Seq<char> {
        match self {
            Language::Ada => "Ada"@,
            Language::Bash => "bash"@,
            Language::C => "C"@,
            Language::Caml => "caml"@,
            Language::CPlusPlus => "C++"@,
            Language::CSharp => "C#"@,
            Language::Clojure => "Clojure"@,
            Language::Dart => "dart"@,
            Language::Elixir => "elixir"@,
            Language::Erlang => "erlang"@,
            Language::FSharp => "f#"@,
            Language::Go => "Go"@,
            Language::Groovy => "Groovy"@,
            Language::Haskell => "Haskell"@,
            Language::Java => "Java"@,
            Language::JavaScript => "JavaScript"@,
            Language::Kotlin => "Kotlin"@,
            Language::Lisp => "Lisp"@,
            Language::ObjectiveC => "ObjectiveC"@,
            Language::PHP => "PHP"@,
            Language::Python => "Python"@,
            Language::R => "R"@,
            Language::Ruby => "Ruby"@,
            Language::Rust => "Rust"@,
            Language::Scala => "Scala"@,
            Language::Swift => "Swift"@,
            Language::TypeScript => "TypeScript"@,
            Language::VBA => "VBA"@,
        }
    }

    /// The lowercase spellings under which the language is recognised.
    pub open spec fn aliases(self) -> Set<Seq<char>> {
        match self {
            Language::Ada => set!["ada"@],
            Language::Bash => set!["bash"@],
            Language::C => set!["c"@],
            Language::Caml => set!["caml"@],
            Language::CPlusPlus => set!["cpp"@, "c++"@, "cxx"@, "cplusplus"@],
            Language::CSharp => set!["c#"@, "csharp"@],
            Language::Clojure => set!["clojure"@],
            Language::Dart => set!["dart"@],
            Language::Elixir => set!["elixir"@],
            Language::Erlang => set!["erlang"@],
            Language::FSharp => set!["f#"@, "fsharp"@],
            Language::Go => set!["go"@],
            Language::Groovy => set!["groovy"@],
            Language::Haskell => set!["haskell"@],
            Language::Java => set!["java"@],
            Language::JavaScript => set!["javascript"@],
            Language::Kotlin => set!["kotlin"@],
            Language::Lisp => set!["lisp"@],
            Language::ObjectiveC => set!["objectivec"@],
            Language::PHP => set!["php"@],
            Language::Python => set!["python"@],
            Language::R => set!["r"@],
            Language::Ruby => set!["ruby"@],
            Language::Rust => set!["rust"@],
            Language::Scala => set!["scala"@],
            Language::Swift => set!["swift"@],
            Language::TypeScript => set!["typescript"@],
            Language::VBA => set!["vba"@],
        }
    }

    /// The language that a lowercase spelling stands for, if any.
    pub open spec fn of_alias(s: Seq<char>) -> Option<Language> {
        if s == "ada"@ {
            Some(Language::Ada)
        } else if s == "bash"@ {
            Some(Language::Bash)
        } else if s == "c"@ {
            Some(Language::C)
        } else if s == "caml"@ {
            Some(Language::Caml)
        } else if s == "cpp"@ || s == "c++"@ || s == "cxx"@ || s == "cplusplus"@ {
            Some(Language::CPlusPlus)
        } else if s == "c#"@ || s == "csharp"@ {
            Some(Language::CSharp)
        } else if s == "clojure"@ {
            Some(Language::Clojure)
        } else if s == "dart"@ {
            Some(Language::Dart)
        } else if s == "elixir"@ {
            Some(Language::Elixir)
        } else if s == "erlang"@ {
            Some(Language::Erlang)
        } else if s == "f#"@ || s == "fsharp"@ {
            Some(Language::FSharp)
        } else if s == "go"@ {
            Some(Language::Go)
        } else if s == "groovy"@ {
            Some(Language::Groovy)
        } else if s == "haskell"@ {
            Some(Language::Haskell)
        } else if s == "java"@ {
            Some(Language::Java)
        } else if s == "javascript"@ {
            Some(Language::JavaScript)
        } else if s == "kotlin"@ {
            Some(Language::Kotlin)
        } else if s == "lisp"@ {
            Some(Language::Lisp)
        } else if s == "objectivec"@ {
            Some(Language::ObjectiveC)
        } else if s == "php"@ {
            Some(Language::PHP)
        } else if s == "python"@ {
            Some(Language::Python)
        } else if s == "r"@ {
            Some(Language::R)
        } else if s == "ruby"@ {
            Some(Language::Ruby)
        } else if s == "rust"@ {
            Some(Language::Rust)
        } else if s == "scala"@ {
            Some(Language::Scala)
        } else if s == "swift"@ {
            Some(Language::Swift)
        } else if s == "typescript"@ {
            Some(Language::TypeScript)
        } else if s == "vba"@ {
            Some(Language::VBA)
        } else {
            None
        }
    }

    /// The language that a spelling in any letter case stands for, if any.
    pub open spec fn parse(s: Seq<char>) -> Option<Language> {
        Language::of_alias(lowercase(s))
    }

    /// The message of the error that an unrecognised spelling gives.
    pub open spec fn invalid() -> Seq<char> {
        "Invalid language"@
    }

    /// Recognises a spelling that is already in lowercase.
    pub fn from_lowercase(s: &str) -> (parsed: Result<Language, String>)
        ensures
            match parsed {
                Ok(lang) => Language::of_alias(s@) == Some(lang),
                Err(message) => Language::of_alias(s@) is None && message@ == Language::invalid(),
            },
    {
        if str_eq(s, "ada") {
            Ok(Language::Ada)
        } else if str_eq(s, "bash") {
            Ok(Language::Bash)
        } else if str_eq(s, "c") {
            Ok(Language::C)
        } else if str_eq(s, "caml") {
            Ok(Language::Caml)
        } else if str_eq(s, "cpp") || str_eq(s, "c++") || str_eq(s, "cxx") || str_eq(s, "cplusplus") {
            Ok(Language::CPlusPlus)
        } else if str_eq(s, "c#") || str_eq(s, "csharp") {
            Ok(Language::CSharp)
        } else if str_eq(s, "clojure") {
            Ok(Language::Clojure)
        } else if str_eq(s, "dart") {
            Ok(Language::Dart)
        } else if str_eq(s, "elixir") {
            Ok(Language::Elixir)
        } else if str_eq(s, "erlang") {
            Ok(Language::Erlang)
        } else if str_eq(s, "f#") || str_eq(s, "fsharp") {
            Ok(Language::FSharp)
        } else if str_eq(s, "go") {
            Ok(Language::Go)
        } else if str_eq(s, "groovy") {
            Ok(Language::Groovy)
        } else if str_eq(s, "haskell") {
            Ok(Language::Haskell)
        } else if str_eq(s, "java") {
            Ok(Language::Java)
        } else if str_eq(s, "javascript") {
            Ok(Language::JavaScript)
        } else if str_eq(s, "kotlin") {
            Ok(Language::Kotlin)
        } else if str_eq(s, "lisp") {
            Ok(Language::Lisp)
        } else if str_eq(s, "objectivec") {
            Ok(Language::ObjectiveC)
        } else if str_eq(s, "php") {
            Ok(Language::PHP)
        } else if str_eq(s, "python") {
            Ok(Language::Python)
        } else if str_eq(s, "r") {
            Ok(Language::R)
        } else if str_eq(s, "ruby") {
            Ok(Language::Ruby)
        } else if str_eq(s, "rust") {
            Ok(Language::Rust)
        } else if str_eq(s, "scala") {
            Ok(Language::Scala)
        } else if str_eq(s, "swift") {
            Ok(Language::Swift)
        } else if str_eq(s, "typescript") {
            Ok(Language::TypeScript)
        } else if str_eq(s, "vba") {
            Ok(Language::VBA)
        } else {
            Err("Invalid language".to_owned())
        }
    }

    /// Recognises a language by any of its spellings, whatever the case of
    /// the letters.
    pub fn from_str(s: &str) -> (parsed: Result<Language, String>)
        ensures
            match parsed {
                Ok(lang) => Language::parse(s@) == Some(lang),
                Err(message) => Language::parse(s@) is None && message@ == Language::invalid(),
            },
    {
        let lowered = to_lowercase(s);
        Language::from_lowercase(lowered.as_str())
    }

    /// The canonical spelling of the language.
    pub fn to_string(&self) -> (shown: String)
        ensures
            shown@ == self.display(),
    {
        let s: &'static str = match self {
            Language::Ada => "Ada",
            Language::Bash => "bash",
            Language::C => "C",
            Language::Caml => "caml",
            Language::CPlusPlus => "C++",
            Language::CSharp => "C#",
            Language::Clojure => "Clojure",
            Language::Dart => "dart",
            Language::Elixir => "elixir",
            Language::Erlang => "erlang",
            Language::FSharp => "f#",
            Language::Go => "Go",
            Language::Groovy => "Groovy",
            Language::Haskell => "Haskell",
            Language::Java => "Java",
            Language::JavaScript => "JavaScript",
            Language::Kotlin => "Kotlin",
            Language::Lisp => "Lisp",
            Language::ObjectiveC => "ObjectiveC",
            Language::PHP => "PHP",
            Language::Python => "Python",
            Language::R => "R",
            Language::Ruby => "Ruby",
            Language::Rust => "Rust",
            Language::Scala => "Scala",
            Language::Swift => "Swift",
            Language::TypeScript => "TypeScript",
            Language::VBA => "VBA",
        };
        s.to_owned()
    }
}

/// A lowercase spelling stands for a language exactly when it is one of that
/// language's aliases: no spelling belongs to two languages.
pub proof fn lemma_alias_names_language(s: Seq<char>, lang: Language)
    ensures
        Language::of_alias(s) == Some(lang) <==> lang.aliases().contains(s),
{
    // The length and the first characters of each alias: no two agree in both.
    reveal_strlit("ada");
    assert("ada"@.len() == 3 && "ada"@[0] == 'a');
    reveal_strlit("bash");
    assert("bash"@.len() == 4 && "bash"@[0] == 'b');
    reveal_strlit("c");
    assert("c"@.len() == 1 && "c"@[0] == 'c');
    reveal_strlit("caml");
    assert("caml"@.len() == 4 && "caml"@[0] == 'c');
    reveal_strlit("cpp");
    assert("cpp"@.len() == 3 && "cpp"@[0] == 'c' && "cpp"@[1] == 'p');
    reveal_strlit("c++");
    assert("c++"@.len() == 3 && "c++"@[0] == 'c' && "c++"@[1] == '+');
    reveal_strlit("cxx");
    assert("cxx"@.len() == 3 && "cxx"@[0] == 'c' && "cxx"@[1] == 'x');
    reveal_strlit("cplusplus");
    assert("cplusplus"@.len() == 9);
    reveal_strlit("c#");
    assert("c#"@.len() == 2 && "c#"@[0] == 'c');
    reveal_strlit("csharp");
    assert("csharp"@.len() == 6 && "csharp"@[0] == 'c');
    reveal_strlit("clojure");
    assert("clojure"@.len() == 7 && "clojure"@[0] == 'c');
    reveal_strlit("dart");
    assert("dart"@.len() == 4 && "dart"@[0] == 'd');
    reveal_strlit("elixir");
    assert("elixir"@.len() == 6 && "elixir"@[0] == 'e' && "elixir"@[1] == 'l');
    reveal_strlit("erlang");
    assert("erlang"@.len() == 6 && "erlang"@[0] == 'e' && "erlang"@[1] == 'r');
    reveal_strlit("f#");
    assert("f#"@.len() == 2 && "f#"@[0] == 'f');
    reveal_strlit("fsharp");
    assert("fsharp"@.len() == 6 && "fsharp"@[0] == 'f');
    reveal_strlit("go");
    assert("go"@.len() == 2 && "go"@[0] == 'g');
    reveal_strlit("groovy");
    assert("groovy"@.len() == 6 && "groovy"@[0] == 'g');
    reveal_strlit("haskell");
    assert("haskell"@.len() == 7 && "haskell"@[0] == 'h');
    reveal_strlit("java");
    assert("java"@.len() == 4 && "java"@[0] == 'j');
    reveal_strlit("javascript");
    assert("javascript"@.len() == 10 && "javascript"@[0] == 'j');
    reveal_strlit("kotlin");
    assert("kotlin"@.len() == 6 && "kotlin"@[0] == 'k');
    reveal_strlit("lisp");
    assert("lisp"@.len() == 4 && "lisp"@[0] == 'l');
    reveal_strlit("objectivec");
    assert("objectivec"@.len() == 10 && "objectivec"@[0] == 'o');
    reveal_strlit("php");
    assert("php"@.len() == 3 && "php"@[0] == 'p');
    reveal_strlit("python");
    assert("python"@.len() == 6 && "python"@[0] == 'p');
    reveal_strlit("r");
    assert("r"@.len() == 1 && "r"@[0] == 'r');
    reveal_strlit("ruby");
    assert("ruby"@.len() == 4 && "ruby"@[0] == 'r' && "ruby"@[1] == 'u' && "ruby"@[2] == 'b');
    reveal_strlit("rust");
    assert("rust"@.len() == 4 && "rust"@[0] == 'r' && "rust"@[1] == 'u' && "rust"@[2] == 's');
    reveal_strlit("scala");
    assert("scala"@.len() == 5 && "scala"@[0] == 's' && "scala"@[1] == 'c');
    reveal_strlit("swift");
    assert("swift"@.len() == 5 && "swift"@[0] == 's' && "swift"@[1] == 'w');
    reveal_strlit("typescript");
    assert("typescript"@.len() == 10 && "typescript"@[0] == 't');
    reveal_strlit("vba");
    assert("vba"@.len() == 3 && "vba"@[0] == 'v');
}

impl FromStr for Language {
    type Err = String;

    /// As [`Language::from_str`], for callers that parse through the trait.
    fn from_str(s: &str) -> (parsed: Result<Language, String>)
        ensures
            match parsed {
                Ok(lang) => Language::parse(s@) == Some(lang),
                Err(message) => Language::parse(s@) is None && message@ == Language::invalid(),
            },
    {
        Language::from_str(s)
    }
}

/// No language is missing from the list of all of them.
pub proof fn lemma_variants_complete(lang: Language)
    ensures
        Language::variants().contains(lang),
{
    match lang {
        Language::Ada => assert(Language::variants()[0] == lang),
        Language::Bash => assert(Language::variants()[1] == lang),
        Language::C => assert(Language::variants()[2] == lang),
        Language::Caml => assert(Language::variants()[3] == lang),
        Language::CPlusPlus => assert(Language::variants()[4] == lang),
        Language::CSharp => assert(Language::variants()[5] == lang),
        Language::Clojure => assert(Language::variants()[6] == lang),
        Language::Dart => assert(Language::variants()[7] == lang),
        Language::Elixir => assert(Language::variants()[8] == lang),
        Language::Erlang => assert(Language::variants()[9] == lang),
        Language::FSharp => assert(Language::variants()[10] == lang),
        Language::Go => assert(Language::variants()[11] == lang),
        Language::Groovy => assert(Language::variants()[12] == lang),
        Language::Haskell => assert(Language::variants()[13] == lang),
        Language::Java => assert(Language::variants()[14] == lang),
        Language::JavaScript => assert(Language::variants()[15] == lang),
        Language::Kotlin => assert(Language::variants()[16] == lang),
        Language::Lisp => assert(Language::variants()[17] == lang),
        Language::ObjectiveC => assert(Language::variants()[18] == lang),
        Language::PHP => assert(Language::variants()[19] == lang),
        Language::Python => assert(Language::variants()[20] == lang),
        Language::R => assert(Language::variants()[21] == lang),
        Language::Ruby => assert(Language::variants()[22] == lang),
        Language::Rust => assert(Language::variants()[23] == lang),
        Language::Scala => assert(Language::variants()[24] == lang),
        Language::Swift => assert(Language::variants()[25] == lang),
        Language::TypeScript => assert(Language::variants()[26] == lang),
        Language::VBA => assert(Language::variants()[27] == lang),
    }
}

/// The canonical spelling of a language, put in lowercase, is one of its
/// aliases.
pub proof fn lemma_display_is_alias(lang: Language)
    ensures
        is_ascii_chars(lang.display()),
        lang.aliases().contains(ascii_lowercase(lang.display())),
{
    match lang {
        Language::Ada => {
            reveal_strlit("Ada");
            reveal_strlit("ada");
            assert(ascii_lowercase("Ada"@) =~= "ada"@);
        },
        Language::Bash => {
            reveal_strlit("bash");
            assert(ascii_lowercase("bash"@) =~= "bash"@);
        },
        Language::C => {
            reveal_strlit("C");
            reveal_strlit("c");
            assert(ascii_lowercase("C"@) =~= "c"@);
        },
        Language::Caml => {
            reveal_strlit("caml");
            assert(ascii_lowercase("caml"@) =~= "caml"@);
        },
        Language::CPlusPlus => {
            reveal_strlit("C++");
            reveal_strlit("c++");
            assert(ascii_lowercase("C++"@) =~= "c++"@);
        },
        Language::CSharp => {
            reveal_strlit("C#");
            reveal_strlit("c#");
            assert(ascii_lowercase("C#"@) =~= "c#"@);
        },
        Language::Clojure => {
            reveal_strlit("Clojure");
            reveal_strlit("clojure");
            assert(ascii_lowercase("Clojure"@) =~= "clojure"@);
        },
        Language::Dart => {
            reveal_strlit("dart");
            assert(ascii_lowercase("dart"@) =~= "dart"@);
        },
        Language::Elixir => {
            reveal_strlit("elixir");
            assert(ascii_lowercase("elixir"@) =~= "elixir"@);
        },
        Language::Erlang => {
            reveal_strlit("erlang");
            assert(ascii_lowercase("erlang"@) =~= "erlang"@);
        },
        Language::FSharp => {
            reveal_strlit("f#");
            assert(ascii_lowercase("f#"@) =~= "f#"@);
        },
        Language::Go => {
            reveal_strlit("Go");
            reveal_strlit("go");
            assert(ascii_lowercase("Go"@) =~= "go"@);
        },
        Language::Groovy => {
            reveal_strlit("Groovy");
            reveal_strlit("groovy");
            assert(ascii_lowercase("Groovy"@) =~= "groovy"@);
        },
        Language::Haskell => {
            reveal_strlit("Haskell");
            reveal_strlit("haskell");
            assert(ascii_lowercase("Haskell"@) =~= "haskell"@);
        },
        Language::Java => {
            reveal_strlit("Java");
            reveal_strlit("java");
            assert(ascii_lowercase("Java"@) =~= "java"@);
        },
        Language::JavaScript => {
            reveal_strlit("JavaScript");
            reveal_strlit("javascript");
            assert(ascii_lowercase("JavaScript"@) =~= "javascript"@);
        },
        Language::Kotlin => {
            reveal_strlit("Kotlin");
            reveal_strlit("kotlin");
            assert(ascii_lowercase("Kotlin"@) =~= "kotlin"@);
        },
        Language::Lisp => {
            reveal_strlit("Lisp");
            reveal_strlit("lisp");
            assert(ascii_lowercase("Lisp"@) =~= "lisp"@);
        },
        Language::ObjectiveC => {
            reveal_strlit("ObjectiveC");
            reveal_strlit("objectivec");
            assert(ascii_lowercase("ObjectiveC"@) =~= "objectivec"@);
        },
        Language::PHP => {
            reveal_strlit("PHP");
            reveal_strlit("php");
            assert(ascii_lowercase("PHP"@) =~= "php"@);
        },
        Language::Python => {
            reveal_strlit("Python");
            reveal_strlit("python");
            assert(ascii_lowercase("Python"@) =~= "python"@);
        },
        Language::R => {
            reveal_strlit("R");
            reveal_strlit("r");
            assert(ascii_lowercase("R"@) =~= "r"@);
        },
        Language::Ruby => {
            reveal_strlit("Ruby");
            reveal_strlit("ruby");
            assert(ascii_lowercase("Ruby"@) =~= "ruby"@);
        },
        Language::Rust => {
            reveal_strlit("Rust");
            reveal_strlit("rust");
            assert(ascii_lowercase("Rust"@) =~= "rust"@);
        },
        Language::Scala => {
            reveal_strlit("Scala");
            reveal_strlit("scala");
            assert(ascii_lowercase("Scala"@) =~= "scala"@);
        },
        Language::Swift => {
            reveal_strlit("Swift");
            reveal_strlit("swift");
            assert(ascii_lowercase("Swift"@) =~= "swift"@);
        },
        Language::TypeScript => {
            reveal_strlit("TypeScript");
            reveal_strlit("typescript");
            assert(ascii_lowercase("TypeScript"@) =~= "typescript"@);
        },
        Language::VBA => {
            reveal_strlit("VBA");
            reveal_strlit("vba");
            assert(ascii_lowercase("VBA"@) =~= "vba"@);
        },
    }
}

/// Round trip: what a language is shown as parses back to that language.
pub proof fn lemma_parse_display(lang: Language)
    ensures
        Language::parse(lang.display()) == Some(lang),
{
    lemma_display_is_alias(lang);
    lemma_alias_names_language(lowercase(lang.display()), lang);
}

/// Parsing looks at a spelling's lowercase form alone: a spelling stands for
/// a language exactly when that form is one of the language's aliases, so two
/// spellings that differ only in the case of their letters parse alike.
pub proof fn lemma_parse_ignores_case(s: Seq<char>, t: Seq<char>, lang: Language)
    ensures
        Language::parse(s) == Some(lang) <==> lang.aliases().contains(lowercase(s)),
        lowercase(s) == lowercase(t) ==> Language::parse(s) == Language::parse(t),
{
    lemma_alias_names_language(lowercase(s), lang);
}

/// The extension table: file extensions paired with the language that each
/// one identifies, in the order in which a lookup tries them.
pub type Extensions = Vec<(&'static str, Language)>;

/// What a table holds, as plain values.
pub open spec fn entries(table: Seq<(&'static str, Language)>) -> Seq<(Seq<char>, Language)> {
    table.map_values(|entry: (&'static str, Language)| (entry.0@, entry.1))
}

/// The entries that `exts` contribute for one language.
pub open spec fn entries_for(lang: Language, exts: Seq<&'static str>) -> Seq<(Seq<char>, Language)> {
    exts.map_values(|ext: &'static str| (ext@, lang))
}

/// The language of the first entry whose extension is `ext`, if there is one.
pub open spec fn first_match(table: Seq<(Seq<char>, Language)>, ext: Seq<char>) -> Option<Language>
    decreases table.len(),
{
    if table.len() == 0 {
        None
    } else if table[0].0 == ext {
        Some(table[0].1)
    } else {
        first_match(table.drop_first(), ext)
    }
}

/// The extensions that the library knows, in lookup order.
pub open spec fn extension_table() -> Seq<(Seq<char>, Language)> {
    seq![
        ("sh"@, Language::Bash),
        ("c"@, Language::C),
        ("c++"@, Language::C),
        ("cxx"@, Language::C),
        ("hs"@, Language::Haskell),
        ("rs"@, Language::Rust),
    ]
}

/// Appends one entry per extension in `exts`, each for `lang`.
fn add_all(xs: &mut Extensions, lang: Language, exts: &[&'static str])
    ensures
        entries(final(xs)@) == entries(old(xs)@) + entries_for(lang, exts@),
{
    let mut i: usize = 0;
    while i < exts.len()
        invariant
            i <= exts.len(),
            entries(xs@) == entries(old(xs)@) + entries_for(lang, exts@.take(i as int)),
        decreases exts.len() - i,
    {
        let ext = exts[i];
        let ghost before = xs@;
        xs.push((ext, lang));
        proof {
            assert(entries(xs@) =~= entries(before).push((ext@, lang)));
            assert(entries_for(lang, exts@.take(i + 1)) =~= entries_for(lang, exts@.take(i as int)).push(
                (ext@, lang),
            ));
        }
        i += 1;
    }
    assert(exts@.take(i as int) =~= exts@);
}

/// Builds the extension table.
pub fn extensions() -> (xs: Extensions)
    ensures
        entries(xs@) == extension_table(),
{
    let mut xs: Extensions = Vec::new();
    add_all(&mut xs, Language::Bash, &["sh"]);
    add_all(&mut xs, Language::C, &["c", "c++", "cxx"]);
    add_all(&mut xs, Language::Haskell, &["hs"]);
    add_all(&mut xs, Language::Rust, &["rs"]);
    assert(entries(xs@) =~= extension_table());
    xs
}

/// Looks an extension up in a table: the first entry that spells it exactly
/// decides.
pub fn lookup(table: &[(&'static str, Language)], ext: &str) -> (found: Option<Language>)
    ensures
        found == first_match(entries(table@), ext@),
{
    let mut i: usize = 0;
    assert(entries(table@).skip(0) =~= entries(table@));
    while i < table.len()
        invariant
            i <= table.len(),
            first_match(entries(table@), ext@) == first_match(entries(table@).skip(i as int), ext@),
        decreases table.len() - i,
    {
        let ghost rest = entries(table@).skip(i as int);
        if str_eq(table[i].0, ext) {
            return Some(table[i].1);
        }
        assert(rest.drop_first() =~= entries(table@).skip(i + 1));
        i += 1;
    }
    None
}

/// `std::path::Path`, carried through without a look inside.
#[verifier::external_type_specification]
#[verifier::external_body]
pub struct ExPath(Path);

/// What `Path::extension` gives for a path: the extension of its file name,
/// where it has one, taken as a path of its own.
pub uninterp spec fn extension_of(source: &Path) -> Option<&Path>;

/// What `Path::to_str` gives for a path: its text, where it is valid
/// Unicode.
pub uninterp spec fn text_of(path: &Path) -> Option<Seq<char>>;

/// `Path::extension`, with the extension handed on as a path of its own. The
/// result depends on the path alone and is the one that `extension_of`
/// names. The call reads no file and cannot fail.
#[verifier::external_body]
fn path_extension(source: &Path) -> (extension: Option<&Path>)
    ensures
        extension == extension_of(source),
{
    source.extension().map(Path::new)
}

/// `Path::to_str`. The result depends on the path alone: it is the text that
/// `text_of` names, and there is none exactly where `text_of` names none.
#[verifier::external_body]
fn path_to_str(path: &Path) -> (text: Option<&str>)
    ensures
        match text {
            Some(text) => text_of(path) == Some(text@),
            None => text_of(path) is None,
        },
{
    path.to_str()
}

impl Language {
    /// The language that a file extension identifies, if any: the first
    /// entry of the extension table that spells it exactly decides.
    pub open spec fn of_extension(ext: Seq<char>) -> Option<Language> {
        first_match(extension_table(), ext)
    }

    /// The language that a path identifies: that of its extension, read as
    /// text. A path without an extension, or with one that is not valid
    /// Unicode, identifies none.
    pub open spec fn identified(source: &Path) -> Option<Language> {
        match extension_of(source) {
            None => None,
            Some(extension) => match text_of(extension) {
                None => None,
                Some(ext) => Language::of_extension(ext),
            },
        }
    }

    /// Identifies a language by a file extension, written without its dot.
    pub fn from_extension(ext: &str) -> (lang: Option<Language>)
        ensures
            lang == Language::of_extension(ext@),
    {
        let table = extensions();
        lookup(table.as_slice(), ext)
    }

    /// Identifies the language of a source file by the extension of its
    /// path. The path need not exist. A path without an extension, or with
    /// one that the table does not hold, identifies no language.
    pub fn from_source(source: &Path) -> (lang: Option<Language>)
        ensures
            lang == Language::identified(source),
    {
        match path_extension(source) {
            None => None,
            Some(extension) => match path_to_str(extension) {
                None => None,
                Some(ext) => Language::from_extension(ext),
            },
        }
    }
}

/// Only the extension of a path counts: two paths with the same extension
/// identify the same language, whatever their directories and file stems,
/// and a path without an extension identifies none.
pub proof fn lemma_identified_by_extension(p: &Path, q: &Path)
    ensures
        extension_of(p) == extension_of(q) ==> Language::identified(p) == Language::identified(q),
        extension_of(p) is None ==> Language::identified(p) is None,
{
}

/// The extension table read entry by entry: `sh` is Bash; `c`, `c++` and
/// `cxx` are C; `hs` is Haskell; `rs` is Rust; nothing else is known.
pub proof fn lemma_of_extension(ext: Seq<char>)
    ensures
        ext == "sh"@ ==> Language::of_extension(ext) == Some(Language::Bash),
        ext == "c"@ || ext == "c++"@ || ext == "cxx"@ ==> Language::of_extension(ext) == Some(
            Language::C,
        ),
        ext == "hs"@ ==> Language::of_extension(ext) == Some(Language::Haskell),
        ext == "rs"@ ==> Language::of_extension(ext) == Some(Language::Rust),
        Language::of_extension(ext) is Some ==> ext == "sh"@ || ext == "c"@ || ext == "c++"@ || ext
            == "cxx"@ || ext == "hs"@ || ext == "rs"@,
{
    reveal_with_fuel(first_match, 7);
    reveal_strlit("sh");
    reveal_strlit("c");
    reveal_strlit("c++");
    reveal_strlit("cxx");
    reveal_strlit("hs");
    reveal_strlit("rs");
    assert("sh"@.len() == 2 && "sh"@[0] == 's');
    assert("c"@.len() == 1);
    assert("c++"@.len() == 3 && "c++"@[1] == '+');
    assert("cxx"@.len() == 3 && "cxx"@[1] == 'x');
    assert("hs"@.len() == 2 && "hs"@[0] == 'h');
    assert("rs"@.len() == 2 && "rs"@[0] == 'r');
}

} // verus!
