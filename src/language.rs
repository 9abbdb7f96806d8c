use vstd::prelude::*;

verus! {

/// The languages a job can be written in.
#[derive(Clone, Copy, Debug, PartialEq, Eq, Structural)]
pub enum Language {
    Rust,
    Python,
    Node,
}

/// The wire tag of a language: `0 = Rust`, `1 = Python`, `2 = Node`.
pub open spec fn tag_of(l: Language) -> i32 {
    match l {
        Language::Rust => 0,
        Language::Python => 1,
        Language::Node => 2,
    }
}

/// The language a wire tag stands for, if any.
pub open spec fn language_of_tag(tag: i32) -> Option<Language> {
    if tag == 0 {
        Some(Language::Rust)
    } else if tag == 1 {
        Some(Language::Python)
    } else if tag == 2 {
        Some(Language::Node)
    } else {
        None
    }
}

/// The lower-case name by which the agent and the artifact cache know a language.
pub open spec fn name_of(l: Language) -> Seq<char> {
    match l {
        Language::Rust => seq!['r', 'u', 's', 't'],
        Language::Python => seq!['p', 'y', 't', 'h', 'o', 'n'],
        Language::Node => seq!['n', 'o', 'd', 'e'],
    }
}

/// The language whose name is `s`, if any.
pub open spec fn language_of_name(s: Seq<char>) -> Option<Language> {
    if s == name_of(Language::Rust) {
        Some(Language::Rust)
    } else if s == name_of(Language::Python) {
        Some(Language::Python)
    } else if s == name_of(Language::Node) {
        Some(Language::Node)
    } else {
        None
    }
}

impl Language {
    /// Decodes a wire tag; an unknown tag gives `None`.
    pub fn from_i32(tag: i32) -> (r: Option<Language>)
        ensures
            r == language_of_tag(tag),
    {
        if tag == 0 {
            Some(Language::Rust)
        } else if tag == 1 {
            Some(Language::Python)
        } else if tag == 2 {
            Some(Language::Node)
        } else {
            None
        }
    }

    /// The wire tag of this language.
    pub fn to_i32(self) -> (r: i32)
        ensures
            r == tag_of(self),
    {
        match self {
            Language::Rust => 0,
            Language::Python => 1,
            Language::Node => 2,
        }
    }

    /// The lower-case name of this language: `"rust"`, `"python"` or `"node"`.
    pub fn name(self) -> (r: String)
        ensures
            r@ == name_of(self),
    {
        match self {
            Language::Rust => {
                proof {
                    reveal_strlit("rust");
                }
                String::from_str("rust")
            },
            Language::Python => {
                proof {
                    reveal_strlit("python");
                }
                String::from_str("python")
            },
            Language::Node => {
                proof {
                    reveal_strlit("node");
                }
                String::from_str("node")
            },
        }
    }

    /// Reads a lower-case language name; anything else gives `None`.
    pub fn from_name(s: &str) -> (r: Option<Language>)
        ensures
            r == language_of_name(s@),
    {
        let owned = s.to_owned();
        let rust = Language::Rust.name();
        let python = Language::Python.name();
        let node = Language::Node.name();
        if owned == rust {
            Some(Language::Rust)
        } else if owned == python {
            Some(Language::Python)
        } else if owned == node {
            Some(Language::Node)
        } else {
            None
        }
    }
}

/// Decoding a known wire tag, naming the language, and reading the name back gives
/// the same language, whose tag is the one started from.
pub proof fn lemma_tag_name_round_trip(tag: i32)
    requires
        0 <= tag <= 2,
    ensures
        language_of_tag(tag) is Some,
        language_of_name(name_of(language_of_tag(tag)->Some_0)) == language_of_tag(tag),
        tag_of(language_of_tag(tag)->Some_0) == tag,
{
    assert(name_of(Language::Python) != name_of(Language::Rust)) by {
        assert(name_of(Language::Python).len() != name_of(Language::Rust).len());
    }
    assert(name_of(Language::Node) != name_of(Language::Rust)) by {
        assert(name_of(Language::Node)[0] != name_of(Language::Rust)[0]);
    }
    assert(name_of(Language::Node) != name_of(Language::Python)) by {
        assert(name_of(Language::Node).len() != name_of(Language::Python).len());
    }
}

/// Verbosity forwarded to the guest; it has no meaning on the host.
#[derive(Clone, Copy, Debug, PartialEq, Eq, Structural)]
pub enum LogLevel {
    Error,
    Warn,
    Info,
    Debug,
    Trace,
}

} // verus!
