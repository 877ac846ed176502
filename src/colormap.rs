use vstd::prelude::*;

verus! {

/// Number of named palettes a render can pick from.
pub const COLORMAP_COUNT: usize = 28;

/// A named color palette. The palette bytes themselves are supplied from
/// outside the library, through a `PaletteSet`.
#[derive(Copy, Clone, Debug, PartialEq, Eq, PartialOrd, Ord, Structural)]
pub enum Colormap {
    Acton,
    Bamako,
    Batlow,
    Berlin,
    Bilbao,
    Broc,
    Broco,
    Buda,
    Cork,
    Corko,
    Davos,
    Devon,
    Grayc,
    Hawaii,
    Imola,
    Lajolla,
    Lapaz,
    Lisbon,
    Nuuk,
    Oleron,
    Oslo,
    Roma,
    Romao,
    Tofino,
    Tokyo,
    Turku,
    Vik,
    Viko,
}

impl Colormap {
    /// Position of the palette in the fixed enumeration.
    pub open spec fn spec_index(self) -> nat {
        match self {
            Colormap::Acton => 0,
            Colormap::Bamako => 1,
            Colormap::Batlow => 2,
            Colormap::Berlin => 3,
            Colormap::Bilbao => 4,
            Colormap::Broc => 5,
            Colormap::Broco => 6,
            Colormap::Buda => 7,
            Colormap::Cork => 8,
            Colormap::Corko => 9,
            Colormap::Davos => 10,
            Colormap::Devon => 11,
            Colormap::Grayc => 12,
            Colormap::Hawaii => 13,
            Colormap::Imola => 14,
            Colormap::Lajolla => 15,
            Colormap::Lapaz => 16,
            Colormap::Lisbon => 17,
            Colormap::Nuuk => 18,
            Colormap::Oleron => 19,
            Colormap::Oslo => 20,
            Colormap::Roma => 21,
            Colormap::Romao => 22,
            Colormap::Tofino => 23,
            Colormap::Tokyo => 24,
            Colormap::Turku => 25,
            Colormap::Vik => 26,
            Colormap::Viko => 27,
        }
    }

    /// The palette at position `i` of the fixed enumeration.
    pub open spec fn spec_at(i: nat) -> Colormap
        recommends
            i < COLORMAP_COUNT,
    {
        if i == 0 {
            Colormap::Acton
        } else if i == 1 {
            Colormap::Bamako
        } else if i == 2 {
            Colormap::Batlow
        } else if i == 3 {
            Colormap::Berlin
        } else if i == 4 {
            Colormap::Bilbao
        } else if i == 5 {
            Colormap::Broc
        } else if i == 6 {
            Colormap::Broco
        } else if i == 7 {
            Colormap::Buda
        } else if i == 8 {
            Colormap::Cork
        } else if i == 9 {
            Colormap::Corko
        } else if i == 10 {
            Colormap::Davos
        } else if i == 11 {
            Colormap::Devon
        } else if i == 12 {
            Colormap::Grayc
        } else if i == 13 {
            Colormap::Hawaii
        } else if i == 14 {
            Colormap::Imola
        } else if i == 15 {
            Colormap::Lajolla
        } else if i == 16 {
            Colormap::Lapaz
        } else if i == 17 {
            Colormap::Lisbon
        } else if i == 18 {
            Colormap::Nuuk
        } else if i == 19 {
            Colormap::Oleron
        } else if i == 20 {
            Colormap::Oslo
        } else if i == 21 {
            Colormap::Roma
        } else if i == 22 {
            Colormap::Romao
        } else if i == 23 {
            Colormap::Tofino
        } else if i == 24 {
            Colormap::Tokyo
        } else if i == 25 {
            Colormap::Turku
        } else if i == 26 {
            Colormap::Vik
        } else {
            Colormap::Viko
        }
    }

    /// Position of the palette in the fixed enumeration.
    pub fn index(&self) -> (r: usize)
        ensures
            r == self.spec_index(),
            r < COLORMAP_COUNT,
            Colormap::spec_at(r as nat) == *self,
    {
        match self {
            Colormap::Acton => 0,
            Colormap::Bamako => 1,
            Colormap::Batlow => 2,
            Colormap::Berlin => 3,
            Colormap::Bilbao => 4,
            Colormap::Broc => 5,
            Colormap::Broco => 6,
            Colormap::Buda => 7,
            Colormap::Cork => 8,
            Colormap::Corko => 9,
            Colormap::Davos => 10,
            Colormap::Devon => 11,
            Colormap::Grayc => 12,
            Colormap::Hawaii => 13,
            Colormap::Imola => 14,
            Colormap::Lajolla => 15,
            Colormap::Lapaz => 16,
            Colormap::Lisbon => 17,
            Colormap::Nuuk => 18,
            Colormap::Oleron => 19,
            Colormap::Oslo => 20,
            Colormap::Roma => 21,
            Colormap::Romao => 22,
            Colormap::Tofino => 23,
            Colormap::Tokyo => 24,
            Colormap::Turku => 25,
            Colormap::Vik => 26,
            Colormap::Viko => 27,
        }
    }

    /// The palette at position `i`, or `None` past the end of the enumeration.
    pub fn from_index(i: usize) -> (r: Option<Colormap>)
        ensures
            i < COLORMAP_COUNT ==> r == Some(Colormap::spec_at(i as nat)),
            i >= COLORMAP_COUNT ==> r.is_none(),
            r matches Some(c) ==> c.spec_index() == i,
    {
        match i {
            0 => Some(Colormap::Acton),
            1 => Some(Colormap::Bamako),
            2 => Some(Colormap::Batlow),
            3 => Some(Colormap::Berlin),
            4 => Some(Colormap::Bilbao),
            5 => Some(Colormap::Broc),
            6 => Some(Colormap::Broco),
            7 => Some(Colormap::Buda),
            8 => Some(Colormap::Cork),
            9 => Some(Colormap::Corko),
            10 => Some(Colormap::Davos),
            11 => Some(Colormap::Devon),
            12 => Some(Colormap::Grayc),
            13 => Some(Colormap::Hawaii),
            14 => Some(Colormap::Imola),
            15 => Some(Colormap::Lajolla),
            16 => Some(Colormap::Lapaz),
            17 => Some(Colormap::Lisbon),
            18 => Some(Colormap::Nuuk),
            19 => Some(Colormap::Oleron),
            20 => Some(Colormap::Oslo),
            21 => Some(Colormap::Roma),
            22 => Some(Colormap::Romao),
            23 => Some(Colormap::Tofino),
            24 => Some(Colormap::Tokyo),
            25 => Some(Colormap::Turku),
            26 => Some(Colormap::Vik),
            27 => Some(Colormap::Viko),
            _ => None,
        }
    }
}

} // verus!
