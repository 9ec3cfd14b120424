//! Localized names for the table element.

use vstd::prelude::*;

verus! {

/// The text language in effect where a table's name is displayed.
#[derive(Clone, Copy, PartialEq, Eq, Structural, Debug)]
pub enum Lang {
    Albanian,
    Arabic,
    Bokmal,
    Chinese,
    Czech,
    Danish,
    Dutch,
    English,
    Estonian,
    Filipino,
    Finnish,
    French,
    German,
    Greek,
    Hungarian,
    Italian,
    Japanese,
    Nynorsk,
    Polish,
    Portuguese,
    Romanian,
    Russian,
    Serbian,
    Slovenian,
    Spanish,
    Swedish,
    Turkish,
    Ukrainian,
    Vietnamese,
    /// Any language without a localized name of its own.
    Other,
}

/// A two-letter region code, which the table's name does not depend on.
#[derive(Clone, Copy, PartialEq, Eq, Structural, Debug)]
pub struct Region {
    pub first: u8,
    pub second: u8,
}

/// The localized name a table is referred to by in `lang`.
pub open spec fn spec_local_name(lang: Lang) -> Seq<char> {
    match lang {
        Lang::Albanian => "Tabel"@,
        Lang::Arabic => "\u{062c}\u{062f}\u{0648}\u{0644}"@,
        Lang::Bokmal => "Tabell"@,
        Lang::Chinese => "\u{8868}"@,
        Lang::Czech => "Tabulka"@,
        Lang::Danish => "Tabel"@,
        Lang::Dutch => "Tabel"@,
        Lang::English => "Table"@,
        Lang::Estonian => "Tabel"@,
        Lang::Filipino => "Talaan"@,
        Lang::Finnish => "Taulukko"@,
        Lang::French => "Tableau"@,
        Lang::German => "Tabelle"@,
        Lang::Greek => "\u{03a0}\u{03af}\u{03bd}\u{03b1}\u{03ba}\u{03b1}\u{03c2}"@,
        Lang::Hungarian => "T\u{00e1}bl\u{00e1}zat"@,
        Lang::Italian => "Tabella"@,
        Lang::Japanese => "\u{8868}"@,
        Lang::Nynorsk => "Tabell"@,
        Lang::Polish => "Tabela"@,
        Lang::Portuguese => "Tabela"@,
        Lang::Romanian => "Tabelul"@,
        Lang::Russian => "\u{0422}\u{0430}\u{0431}\u{043b}\u{0438}\u{0446}\u{0430}"@,
        Lang::Serbian => "\u{0422}\u{0430}\u{0431}\u{0435}\u{043b}\u{0430}"@,
        Lang::Slovenian => "Tabela"@,
        Lang::Spanish => "Tabla"@,
        Lang::Swedish => "Tabell"@,
        Lang::Turkish => "Tablo"@,
        Lang::Ukrainian => "\u{0422}\u{0430}\u{0431}\u{043b}\u{0438}\u{0446}\u{044f}"@,
        Lang::Vietnamese => "B\u{1ea3}ng"@,
        Lang::Other => "Table"@,
    }
}

/// The localized name a table is referred to by in `lang`. The region plays
/// no part in the choice.
pub fn local_name(lang: Lang, _region: Option<Region>) -> (r: &'static str)
    ensures
        r@ == spec_local_name(lang),
{
    match lang {
        Lang::Albanian => "Tabel",
        Lang::Arabic => "\u{062c}\u{062f}\u{0648}\u{0644}",
        Lang::Bokmal => "Tabell",
        Lang::Chinese => "\u{8868}",
        Lang::Czech => "Tabulka",
        Lang::Danish => "Tabel",
        Lang::Dutch => "Tabel",
        Lang::English => "Table",
        Lang::Estonian => "Tabel",
        Lang::Filipino => "Talaan",
        Lang::Finnish => "Taulukko",
        Lang::French => "Tableau",
        Lang::German => "Tabelle",
        Lang::Greek => "\u{03a0}\u{03af}\u{03bd}\u{03b1}\u{03ba}\u{03b1}\u{03c2}",
        Lang::Hungarian => "T\u{00e1}bl\u{00e1}zat",
        Lang::Italian => "Tabella",
        Lang::Japanese => "\u{8868}",
        Lang::Nynorsk => "Tabell",
        Lang::Polish => "Tabela",
        Lang::Portuguese => "Tabela",
        Lang::Romanian => "Tabelul",
        Lang::Russian => "\u{0422}\u{0430}\u{0431}\u{043b}\u{0438}\u{0446}\u{0430}",
        Lang::Serbian => "\u{0422}\u{0430}\u{0431}\u{0435}\u{043b}\u{0430}",
        Lang::Slovenian => "Tabela",
        Lang::Spanish => "Tabla",
        Lang::Swedish => "Tabell",
        Lang::Turkish => "Tablo",
        Lang::Ukrainian => "\u{0422}\u{0430}\u{0431}\u{043b}\u{0438}\u{0446}\u{044f}",
        Lang::Vietnamese => "B\u{1ea3}ng",
        Lang::Other => "Table",
    }
}

} // verus!
