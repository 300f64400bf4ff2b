//! Terminal and performance profiles.

use vstd::prelude::*;

use crate::text::{
    ascii_lower_chars, ascii_lower_seq, chars_contain, chars_eq, chars_of, has_substring,
    lemma_normal_word, lemma_plain_word_normal, plain_word, trim, trim_chars,
};

verus! {

#[derive(Debug, Clone, Copy, PartialEq, Eq, Structural)]
pub enum TerminalProfile {
    Auto,
    Modern,
    Tty16,
    HighContrast,
    Monochrome,
}

/// The name after trimming and ASCII lower-casing, as the CLI parsers read it.
pub open spec fn cli_word(s: Seq<char>) -> Seq<char> {
    ascii_lower_seq(trim(s))
}

/// The terminal profile a CLI word names, with its aliases.
pub open spec fn terminal_profile_named(s: Seq<char>) -> Option<TerminalProfile> {
    let w = cli_word(s);
    if w == "auto"@ {
        Some(TerminalProfile::Auto)
    } else if w == "modern"@ {
        Some(TerminalProfile::Modern)
    } else if w == "tty16"@ || w == "tty-16"@ || w == "16"@ {
        Some(TerminalProfile::Tty16)
    } else if w == "high-contrast"@ || w == "highcontrast"@ || w == "hc"@ {
        Some(TerminalProfile::HighContrast)
    } else if w == "monochrome"@ || w == "mono"@ || w == "bw"@ {
        Some(TerminalProfile::Monochrome)
    } else {
        None
    }
}

fn word_is(w: &Vec<char>, name: &str) -> (b: bool)
    ensures
        b == (w@ == name@),
{
    let n = chars_of(name);
    chars_eq(w, &n)
}

fn cli_word_of(s: &str) -> (w: Vec<char>)
    ensures
        w@ == cli_word(s@),
{
    let v = chars_of(s);
    let t = trim_chars(&v);
    ascii_lower_chars(&t)
}

/// A TERM value that calls for the 16-colour palette.
pub open spec fn sixteen_colour_term(term: Seq<char>) -> bool {
    let t = ascii_lower_seq(term);
    t == "linux"@ || t == "vt100"@ || t == "ansi"@ || has_substring(t, "16color"@)
}

impl TerminalProfile {
    pub fn parse_cli(s: &str) -> (r: Option<Self>)
        ensures
            r == terminal_profile_named(s@),
    {
        let w = cli_word_of(s);
        if word_is(&w, "auto") {
            Some(TerminalProfile::Auto)
        } else if word_is(&w, "modern") {
            Some(TerminalProfile::Modern)
        } else if word_is(&w, "tty16") || word_is(&w, "tty-16") || word_is(&w, "16") {
            Some(TerminalProfile::Tty16)
        } else if word_is(&w, "high-contrast") || word_is(&w, "highcontrast") || word_is(&w, "hc") {
            Some(TerminalProfile::HighContrast)
        } else if word_is(&w, "monochrome") || word_is(&w, "mono") || word_is(&w, "bw") {
            Some(TerminalProfile::Monochrome)
        } else {
            None
        }
    }

    pub open spec fn label_text(self) -> Seq<char> {
        match self {
            TerminalProfile::Auto => "auto"@,
            TerminalProfile::Modern => "modern"@,
            TerminalProfile::Tty16 => "tty16"@,
            TerminalProfile::HighContrast => "high-contrast"@,
            TerminalProfile::Monochrome => "monochrome"@,
        }
    }

    pub fn label(self) -> (s: &'static str)
        ensures
            s@ == self.label_text(),
    {
        match self {
            TerminalProfile::Auto => "auto",
            TerminalProfile::Modern => "modern",
            TerminalProfile::Tty16 => "tty16",
            TerminalProfile::HighContrast => "high-contrast",
            TerminalProfile::Monochrome => "monochrome",
        }
    }

    pub open spec fn following(self) -> Self {
        match self {
            TerminalProfile::Auto => TerminalProfile::Modern,
            TerminalProfile::Modern => TerminalProfile::Tty16,
            TerminalProfile::Tty16 => TerminalProfile::HighContrast,
            TerminalProfile::HighContrast => TerminalProfile::Monochrome,
            TerminalProfile::Monochrome => TerminalProfile::Auto,
        }
    }

    pub fn next(self) -> (r: Self)
        ensures
            r == self.following(),
    {
        match self {
            TerminalProfile::Auto => TerminalProfile::Modern,
            TerminalProfile::Modern => TerminalProfile::Tty16,
            TerminalProfile::Tty16 => TerminalProfile::HighContrast,
            TerminalProfile::HighContrast => TerminalProfile::Monochrome,
            TerminalProfile::Monochrome => TerminalProfile::Auto,
        }
    }

    /// The concrete profile: Auto becomes Monochrome without colour, Tty16 on a
    /// 16-colour TERM, Modern otherwise; explicit choices stay.
    pub fn resolve_for_terminal(self, color_enabled: bool, term: Option<&str>) -> (r: Self)
        ensures
            r == match self {
                TerminalProfile::Auto => if !color_enabled {
                    TerminalProfile::Monochrome
                } else if term is Some && sixteen_colour_term(term->0@) {
                    TerminalProfile::Tty16
                } else {
                    TerminalProfile::Modern
                },
                other => other,
            },
    {
        match self {
            TerminalProfile::Auto => {
                if !color_enabled {
                    return TerminalProfile::Monochrome;
                }
                let sixteen = match term {
                    Some(t) => {
                        let v = chars_of(t);
                        let l = ascii_lower_chars(&v);
                        let pat = chars_of("16color");
                        word_is(&l, "linux") || word_is(&l, "vt100") || word_is(&l, "ansi")
                            || chars_contain(&l, &pat)
                    },
                    None => false,
                };
                if sixteen {
                    TerminalProfile::Tty16
                } else {
                    TerminalProfile::Modern
                }
            },
            other => other,
        }
    }
}

impl Default for TerminalProfile {
    fn default() -> (r: Self)
        ensures
            r == TerminalProfile::Auto,
    {
        TerminalProfile::Auto
    }
}

#[derive(Debug, Clone, Copy, PartialEq, Eq, Structural)]
pub enum PerformanceProfile {
    Auto,
    LowResource,
    Balanced,
    Responsive,
}

/// The performance profile a CLI word names, with its aliases.
pub open spec fn performance_profile_named(s: Seq<char>) -> Option<PerformanceProfile> {
    let w = cli_word(s);
    if w == "auto"@ {
        Some(PerformanceProfile::Auto)
    } else if w == "low-resource"@ || w == "low"@ || w == "slow"@ {
        Some(PerformanceProfile::LowResource)
    } else if w == "balanced"@ {
        Some(PerformanceProfile::Balanced)
    } else if w == "responsive"@ || w == "fast"@ {
        Some(PerformanceProfile::Responsive)
    } else {
        None
    }
}

impl PerformanceProfile {
    pub fn parse_cli(s: &str) -> (r: Option<Self>)
        ensures
            r == performance_profile_named(s@),
    {
        let w = cli_word_of(s);
        if word_is(&w, "auto") {
            Some(PerformanceProfile::Auto)
        } else if word_is(&w, "low-resource") || word_is(&w, "low") || word_is(&w, "slow") {
            Some(PerformanceProfile::LowResource)
        } else if word_is(&w, "balanced") {
            Some(PerformanceProfile::Balanced)
        } else if word_is(&w, "responsive") || word_is(&w, "fast") {
            Some(PerformanceProfile::Responsive)
        } else {
            None
        }
    }

    pub open spec fn label_text(self) -> Seq<char> {
        match self {
            PerformanceProfile::Auto => "auto"@,
            PerformanceProfile::LowResource => "low-resource"@,
            PerformanceProfile::Balanced => "balanced"@,
            PerformanceProfile::Responsive => "responsive"@,
        }
    }

    pub fn label(self) -> (s: &'static str)
        ensures
            s@ == self.label_text(),
    {
        match self {
            PerformanceProfile::Auto => "auto",
            PerformanceProfile::LowResource => "low-resource",
            PerformanceProfile::Balanced => "balanced",
            PerformanceProfile::Responsive => "responsive",
        }
    }

    pub open spec fn following(self) -> Self {
        match self {
            PerformanceProfile::Auto => PerformanceProfile::LowResource,
            PerformanceProfile::LowResource => PerformanceProfile::Balanced,
            PerformanceProfile::Balanced => PerformanceProfile::Responsive,
            PerformanceProfile::Responsive => PerformanceProfile::Auto,
        }
    }

    pub fn next(self) -> (r: Self)
        ensures
            r == self.following(),
    {
        match self {
            PerformanceProfile::Auto => PerformanceProfile::LowResource,
            PerformanceProfile::LowResource => PerformanceProfile::Balanced,
            PerformanceProfile::Balanced => PerformanceProfile::Responsive,
            PerformanceProfile::Responsive => PerformanceProfile::Auto,
        }
    }

    pub open spec fn resolved(self) -> Self {
        match self {
            PerformanceProfile::Auto => PerformanceProfile::Balanced,
            other => other,
        }
    }

    /// Auto means Balanced; explicit choices stay.
    pub fn resolve(self) -> (r: Self)
        ensures
            r == self.resolved(),
    {
        match self {
            PerformanceProfile::Auto => PerformanceProfile::Balanced,
            other => other,
        }
    }

    /// Metric history length for a base size: halved (at least 10) when low on
    /// resources, the base when balanced, one and a half times (at most 300) when responsive.
    pub fn history_size(self, base: usize) -> (n: usize)
        requires
            self.resolved() == PerformanceProfile::Responsive ==> base * 3 <= usize::MAX,
        ensures
            n == match self.resolved() {
                PerformanceProfile::LowResource => if base / 2 >= 10 {
                    (base / 2) as int
                } else {
                    10
                },
                PerformanceProfile::Responsive => if base * 3 / 2 <= 300 {
                    base * 3 / 2
                } else {
                    300
                },
                _ => base as int,
            },
    {
        match self.resolve() {
            PerformanceProfile::LowResource => {
                let h = base / 2;
                if h >= 10 {
                    h
                } else {
                    10
                }
            },
            PerformanceProfile::Responsive => {
                let g = base * 3 / 2;
                if g <= 300 {
                    g
                } else {
                    300
                }
            },
            _ => base,
        }
    }
}

impl Default for PerformanceProfile {
    fn default() -> (r: Self)
        ensures
            r == PerformanceProfile::Auto,
    {
        PerformanceProfile::Auto
    }
}

/// Cycling the terminal profile visits all five and comes back.
pub proof fn lemma_terminal_profile_cycle(p: TerminalProfile)
    ensures
        p.following().following().following().following().following() == p,
        p.following() != p,
{
}

/// Cycling the performance profile visits all four and comes back.
pub proof fn lemma_performance_profile_cycle(p: PerformanceProfile)
    ensures
        p.following().following().following().following() == p,
        p.following() != p,
{
}

/// The profile words ignore surrounding white space and ASCII case: a word
/// names what its trimmed, lower-cased form names.
pub proof fn lemma_profile_words_normalized(s: Seq<char>)
    ensures
        terminal_profile_named(s) == terminal_profile_named(cli_word(s)),
        performance_profile_named(s) == performance_profile_named(cli_word(s)),
{
    lemma_normal_word(s);
}

/// Parsing a terminal profile's label gives the profile back.
pub proof fn lemma_terminal_profile_round_trip(p: TerminalProfile)
    ensures
        terminal_profile_named(p.label_text()) == Some(p),
{
    reveal_strlit("auto");
    reveal_strlit("modern");
    reveal_strlit("tty16");
    reveal_strlit("tty-16");
    reveal_strlit("16");
    reveal_strlit("high-contrast");
    reveal_strlit("highcontrast");
    reveal_strlit("hc");
    reveal_strlit("monochrome");
    reveal_with_fuel(plain_word, 14);
    assert(plain_word(p.label_text()));
    lemma_plain_word_normal(p.label_text());
}

/// Parsing a performance profile's label gives the profile back.
pub proof fn lemma_performance_profile_round_trip(p: PerformanceProfile)
    ensures
        performance_profile_named(p.label_text()) == Some(p),
{
    reveal_strlit("auto");
    reveal_strlit("low-resource");
    reveal_strlit("low");
    reveal_strlit("slow");
    reveal_strlit("balanced");
    reveal_strlit("responsive");
    reveal_with_fuel(plain_word, 14);
    assert(plain_word(p.label_text()));
    lemma_plain_word_normal(p.label_text());
}

} // verus!
